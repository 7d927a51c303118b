use vstd::prelude::*;

verus! {

/// The views of a list of strings.
pub open spec fn str_views(ss: Seq<String>) -> Seq<Seq<char>> {
    ss.map_values(|s: String| s@)
}

/// Clones a list of strings, keeping every element's characters.
pub fn clone_strings(v: &Vec<String>) -> (r: Vec<String>)
    ensures
        r@.len() == v@.len(),
        forall|k: int| 0 <= k < v@.len() ==> r@[k]@ == v@[k]@,
        str_views(r@) == str_views(v@),
{
    let mut r: Vec<String> = Vec::new();
    let mut k: usize = 0;
    while k < v.len()
        invariant
            k <= v@.len(),
            r@.len() == k,
            forall|j: int| 0 <= j < k ==> r@[j]@ == v@[j]@,
        decreases v@.len() - k,
    {
        r.push(v[k].clone());
        k = k + 1;
    }
    proof {
        assert(str_views(r@) =~= str_views(v@));
    }
    r
}

/// The authenticated account on the remote service.
pub struct User {
    pub id: String,
    pub email: String,
    pub name: String,
}

#[verifier::ext_equal]
pub struct UserV {
    pub id: Seq<char>,
    pub email: Seq<char>,
    pub name: Seq<char>,
}

impl View for User {
    type V = UserV;

    open spec fn view(&self) -> UserV {
        UserV { id: self.id@, email: self.email@, name: self.name@ }
    }
}

impl Clone for User {
    fn clone(&self) -> (r: User)
        ensures
            r@ == self@,
    {
        User { id: self.id.clone(), email: self.email.clone(), name: self.name.clone() }
    }
}

/// A label a time entry may carry; two tags are the same tag exactly when
/// both their identifier and their name agree.
pub struct Tag {
    pub id: String,
    pub name: String,
}

#[verifier::ext_equal]
pub struct TagV {
    pub id: Seq<char>,
    pub name: Seq<char>,
}

impl View for Tag {
    type V = TagV;

    open spec fn view(&self) -> TagV {
        TagV { id: self.id@, name: self.name@ }
    }
}

impl Clone for Tag {
    fn clone(&self) -> (r: Tag)
        ensures
            r@ == self@,
    {
        Tag { id: self.id.clone(), name: self.name.clone() }
    }
}

impl PartialEq for Tag {
    fn eq(&self, o: &Tag) -> (r: bool) {
        self.id == o.id && self.name == o.name
    }
}

impl vstd::std_specs::cmp::PartialEqSpecImpl for Tag {
    open spec fn obeys_eq_spec() -> bool {
        true
    }

    open spec fn eq_spec(&self, o: &Tag) -> bool {
        self.id@ == o.id@ && self.name@ == o.name@
    }
}

/// A project of a workspace, with its total tracked duration as the remote
/// service reports it.
pub struct Project {
    pub id: String,
    pub name: String,
    pub duration: String,
}

#[verifier::ext_equal]
pub struct ProjectV {
    pub id: Seq<char>,
    pub name: Seq<char>,
    pub duration: Seq<char>,
}

impl View for Project {
    type V = ProjectV;

    open spec fn view(&self) -> ProjectV {
        ProjectV { id: self.id@, name: self.name@, duration: self.duration@ }
    }
}

impl Clone for Project {
    fn clone(&self) -> (r: Project)
        ensures
            r@ == self@,
    {
        Project { id: self.id.clone(), name: self.name.clone(), duration: self.duration.clone() }
    }
}

/// A workspace: the tenant scope every other resource lives under.
pub struct Workspace {
    pub id: String,
    pub name: String,
}

#[verifier::ext_equal]
pub struct WorkspaceV {
    pub id: Seq<char>,
    pub name: Seq<char>,
}

impl View for Workspace {
    type V = WorkspaceV;

    open spec fn view(&self) -> WorkspaceV {
        WorkspaceV { id: self.id@, name: self.name@ }
    }
}

impl Clone for Workspace {
    fn clone(&self) -> (r: Workspace)
        ensures
            r@ == self@,
    {
        Workspace { id: self.id.clone(), name: self.name.clone() }
    }
}

/// The recorded interval of a time entry.
pub struct TaskInterval {
    pub start: String,
    pub end: String,
    pub duration: String,
}

#[verifier::ext_equal]
pub struct TaskIntervalV {
    pub start: Seq<char>,
    pub end: Seq<char>,
    pub duration: Seq<char>,
}

impl View for TaskInterval {
    type V = TaskIntervalV;

    open spec fn view(&self) -> TaskIntervalV {
        TaskIntervalV { start: self.start@, end: self.end@, duration: self.duration@ }
    }
}

impl Clone for TaskInterval {
    fn clone(&self) -> (r: TaskInterval)
        ensures
            r@ == self@,
    {
        TaskInterval {
            start: self.start.clone(),
            end: self.end.clone(),
            duration: self.duration.clone(),
        }
    }
}

/// One completed work interval of the authenticated user.
pub struct Task {
    pub id: String,
    pub description: String,
    pub time: TaskInterval,
}

#[verifier::ext_equal]
pub struct TaskV {
    pub id: Seq<char>,
    pub description: Seq<char>,
    pub time: TaskIntervalV,
}

impl View for Task {
    type V = TaskV;

    open spec fn view(&self) -> TaskV {
        TaskV { id: self.id@, description: self.description@, time: self.time@ }
    }
}

impl Clone for Task {
    fn clone(&self) -> (r: Task)
        ensures
            r@ == self@,
    {
        Task { id: self.id.clone(), description: self.description.clone(), time: self.time.clone() }
    }
}

/// The write-side payload of a new time entry.
pub struct TaskRequest {
    pub start: String,
    pub billable: bool,
    pub description: String,
    pub project_id: String,
    pub task_id: Option<String>,
    pub end: String,
    pub tag_ids: Vec<String>,
    pub custom_fields: Vec<String>,
}

#[verifier::ext_equal]
pub struct TaskRequestV {
    pub start: Seq<char>,
    pub billable: bool,
    pub description: Seq<char>,
    pub project_id: Seq<char>,
    pub task_id: Option<Seq<char>>,
    pub end: Seq<char>,
    pub tag_ids: Seq<Seq<char>>,
    pub custom_fields: Seq<Seq<char>>,
}

impl View for TaskRequest {
    type V = TaskRequestV;

    open spec fn view(&self) -> TaskRequestV {
        TaskRequestV {
            start: self.start@,
            billable: self.billable,
            description: self.description@,
            project_id: self.project_id@,
            task_id: match self.task_id {
                Some(t) => Some(t@),
                None => None,
            },
            end: self.end@,
            tag_ids: str_views(self.tag_ids@),
            custom_fields: str_views(self.custom_fields@),
        }
    }
}

impl Clone for TaskRequest {
    fn clone(&self) -> (r: TaskRequest)
        ensures
            r@ == self@,
    {
        let task_id = match &self.task_id {
            Some(t) => Some(t.clone()),
            None => None,
        };
        TaskRequest {
            start: self.start.clone(),
            billable: self.billable,
            description: self.description.clone(),
            project_id: self.project_id.clone(),
            task_id,
            end: self.end.clone(),
            tag_ids: clone_strings(&self.tag_ids),
            custom_fields: clone_strings(&self.custom_fields),
        }
    }
}

/// The tag identifiers of a list of tags, in order.
pub open spec fn spec_tag_ids(tags: Seq<Tag>) -> Seq<Seq<char>> {
    tags.map_values(|t: Tag| t@.id)
}

pub fn tag_ids_of(tags: &Vec<Tag>) -> (r: Vec<String>)
    ensures
        str_views(r@) == spec_tag_ids(tags@),
{
    let mut r: Vec<String> = Vec::new();
    let mut k: usize = 0;
    while k < tags.len()
        invariant
            k <= tags@.len(),
            r@.len() == k,
            forall|j: int| 0 <= j < k ==> r@[j]@ == tags@[j]@.id,
        decreases tags@.len() - k,
    {
        r.push(tags[k].id.clone());
        k = k + 1;
    }
    proof {
        assert(str_views(r@) =~= spec_tag_ids(tags@));
    }
    r
}

} // verus!
