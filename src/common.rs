//! The access roles, project teams and entities that the access-control records share.
use crate::json::{deref, field, opt_text_of, put, text_of, Json};
use crate::text::{after, drop_chars, has_prefix, same, starts_with};
use vstd::prelude::*;

verus! {

broadcast use crate::json::lemma_member_of_push;

/// The access permission that an entry grants.
#[derive(Clone, Copy, Debug, PartialEq, Eq, Structural)]
pub enum Role {
    /// May read and write, and manage access.
    Owner,
    /// May read and write.
    Writer,
    /// May read.
    Reader,
}

/// The wire form of a role.
pub open spec fn role_text(r: Role) -> Seq<char> {
    match r {
        Role::Owner => "OWNER"@,
        Role::Writer => "WRITER"@,
        Role::Reader => "READER"@,
    }
}

/// The role whose wire form is `s`, matched case-sensitively.
pub open spec fn role_of(s: Seq<char>) -> Option<Role> {
    if s == "OWNER"@ {
        Some(Role::Owner)
    } else if s == "WRITER"@ {
        Some(Role::Writer)
    } else if s == "READER"@ {
        Some(Role::Reader)
    } else {
        None
    }
}

/// The role that an optional JSON member names.
pub open spec fn role_in(v: Option<Json>) -> Option<Role> {
    match text_of(v) {
        Some(s) => role_of(s),
        None => None,
    }
}

/// Each role reads back from its wire form.
pub proof fn lemma_role_text(r: Role)
    ensures
        role_of(role_text(r)) == Some(r),
{
    reveal_strlit("OWNER");
    reveal_strlit("WRITER");
    reveal_strlit("READER");
    assert("WRITER"@[0] != "READER"@[0]);
}

impl Role {
    /// Reads a role from an optional JSON member.
    pub fn from_member(v: Option<&Json>) -> (r: Option<Role>)
        ensures
            r == role_in(deref(v)),
    {
        match v {
            Some(Json::Str(s)) => Role::parse(s.as_str()),
            _ => None,
        }
    }

    /// The JSON string for this role.
    pub fn to_json(&self) -> (r: Json)
        ensures
            role_in(Some(r)) == Some(*self),
    {
        proof {
            lemma_role_text(*self);
        }
        Json::Str(String::from_str(self.as_text()))
    }

    /// The wire form of this role.
    pub fn as_text(&self) -> (r: &'static str)
        ensures
            r@ == role_text(*self),
    {
        match self {
            Role::Owner => "OWNER",
            Role::Writer => "WRITER",
            Role::Reader => "READER",
        }
    }

    /// The role with wire form `s`.
    pub fn parse(s: &str) -> (r: Option<Role>)
        ensures
            r == role_of(s@),
    {
        if same(s, "OWNER") {
            Some(Role::Owner)
        } else if same(s, "WRITER") {
            Some(Role::Writer)
        } else if same(s, "READER") {
            Some(Role::Reader)
        } else {
            None
        }
    }
}

/// A team of a project.
#[derive(Clone, Copy, Debug, PartialEq, Eq, Structural)]
pub enum Team {
    /// The project's editors.
    Editors,
    /// The project's owners.
    Owners,
    /// The project's viewers.
    Viewers,
}

/// The wire form of a team.
pub open spec fn team_text(t: Team) -> Seq<char> {
    match t {
        Team::Editors => "editors"@,
        Team::Owners => "owners"@,
        Team::Viewers => "viewers"@,
    }
}

/// The team whose wire form is `s`.
pub open spec fn team_of(s: Seq<char>) -> Option<Team> {
    if s == "editors"@ {
        Some(Team::Editors)
    } else if s == "owners"@ {
        Some(Team::Owners)
    } else if s == "viewers"@ {
        Some(Team::Viewers)
    } else {
        None
    }
}

/// Each team reads back from its wire form.
pub proof fn lemma_team_text(t: Team)
    ensures
        team_of(team_text(t)) == Some(t),
{
    reveal_strlit("editors");
    reveal_strlit("owners");
    reveal_strlit("viewers");
    assert("editors"@[0] != "viewers"@[0]);
}

impl Team {
    /// The wire form of this team.
    pub fn as_text(&self) -> (r: &'static str)
        ensures
            r@ == team_text(*self),
    {
        match self {
            Team::Editors => "editors",
            Team::Owners => "owners",
            Team::Viewers => "viewers",
        }
    }

    /// The team with wire form `s`.
    pub fn parse(s: &str) -> (r: Option<Team>)
        ensures
            r == team_of(s@),
    {
        if same(s, "editors") {
            Some(Team::Editors)
        } else if same(s, "owners") {
            Some(Team::Owners)
        } else if same(s, "viewers") {
            Some(Team::Viewers)
        } else {
            None
        }
    }
}

/// The project team that an entity belongs to.
#[derive(Clone, Debug)]
pub struct ProjectTeam {
    /// The project number.
    pub project_number: String,
    /// The team.
    pub team: Team,
}

/// The content of a `ProjectTeam`.
pub struct ProjectTeamView {
    pub project_number: Seq<char>,
    pub team: Team,
}

impl View for ProjectTeam {
    type V = ProjectTeamView;

    open spec fn view(&self) -> ProjectTeamView {
        ProjectTeamView { project_number: self.project_number@, team: self.team }
    }
}

/// The project team that a JSON object `j` describes.
pub open spec fn project_team_of(j: Json) -> Option<ProjectTeamView> {
    match (text_of(field(j, "projectNumber"@)), text_of(field(j, "team"@))) {
        (Some(n), Some(t)) => match team_of(t) {
            Some(team) => Some(ProjectTeamView { project_number: n, team }),
            None => None,
        },
        _ => None,
    }
}

/// An optional project team member: absent or `null` reads as `Some(None)`.
pub open spec fn opt_project_team_of(v: Option<Json>) -> Option<Option<ProjectTeamView>> {
    match v {
        None => Some(None),
        Some(Json::Null) => Some(None),
        Some(j) => match project_team_of(j) {
            Some(p) => Some(Some(p)),
            None => None,
        },
    }
}

/// The content of an optional project team.
pub open spec fn opt_team_view(o: Option<ProjectTeam>) -> Option<ProjectTeamView> {
    match o {
        Some(p) => Some(p@),
        None => None,
    }
}

impl ProjectTeam {
    /// Reads a project team from its JSON object.
    pub fn from_json(j: &Json) -> (r: Option<ProjectTeam>)
        ensures
            match r {
                Some(p) => project_team_of(*j) == Some(p@),
                None => project_team_of(*j) is None,
            },
    {
        let number = j.text("projectNumber");
        let team = j.text("team");
        match (number, team) {
            (Some(n), Some(t)) => match Team::parse(t.as_str()) {
                Some(team) => Some(ProjectTeam { project_number: n, team }),
                None => None,
            },
            _ => None,
        }
    }

    /// Reads an optional project team member: `Some(None)` where it is absent or `null`.
    pub fn from_member(v: Option<&Json>) -> (r: Option<Option<ProjectTeam>>)
        ensures
            match r {
                Some(o) => opt_project_team_of(deref(v)) == Some(opt_team_view(o)),
                None => opt_project_team_of(deref(v)) is None,
            },
    {
        match v {
            None => Some(None),
            Some(Json::Null) => Some(None),
            Some(j) => match ProjectTeam::from_json(j) {
                Some(p) => Some(Some(p)),
                None => None,
            },
        }
    }

    /// The JSON object for this project team.
    pub fn to_json(&self) -> (r: Json)
        ensures
            project_team_of(r) == Some(self@),
    {
        let mut fields: Vec<(String, Json)> = Vec::new();
        put(&mut fields, "projectNumber", Json::Str(self.project_number.clone()));
        put(&mut fields, "team", Json::Str(String::from_str(self.team.as_text())));
        proof {
            reveal_strlit("projectNumber");
            reveal_strlit("team");
            assert("projectNumber"@.len() != "team"@.len());
            lemma_team_text(self.team);
        }
        Json::Object(fields)
    }

    /// The JSON for an optional project team: the object, or `null`.
    pub fn opt_to_json(o: &Option<ProjectTeam>) -> (r: Json)
        ensures
            opt_project_team_of(Some(r)) == Some(opt_team_view(*o)),
    {
        match o {
            Some(p) => p.to_json(),
            None => Json::Null,
        }
    }
}

/// Who an access-control entry is for.
#[derive(Clone, Debug)]
pub enum Entity {
    /// A user, by id: `user-{id}`.
    UserId(String),
    /// A user, by email: `user-{email}`.
    UserEmail(String),
    /// A group, by id: `group-{id}`.
    GroupId(String),
    /// A group, by email: `group-{email}`.
    GroupEmail(String),
    /// Every member of a domain: `domain-{domain}`.
    Domain(String),
    /// A team of a project: `project-{team}-{project id}`.
    Project(Team, String),
    /// Anyone on the internet: `allUsers`.
    AllUsers,
    /// Anyone signed in with a Google account: `allAuthenticatedUsers`.
    AllAuthenticatedUsers,
}

/// The content of an `Entity`.
pub enum EntityView {
    UserId(Seq<char>),
    UserEmail(Seq<char>),
    GroupId(Seq<char>),
    GroupEmail(Seq<char>),
    Domain(Seq<char>),
    Project(Team, Seq<char>),
    AllUsers,
    AllAuthenticatedUsers,
}

impl View for Entity {
    type V = EntityView;

    open spec fn view(&self) -> EntityView {
        match self {
            Entity::UserId(s) => EntityView::UserId(s@),
            Entity::UserEmail(s) => EntityView::UserEmail(s@),
            Entity::GroupId(s) => EntityView::GroupId(s@),
            Entity::GroupEmail(s) => EntityView::GroupEmail(s@),
            Entity::Domain(s) => EntityView::Domain(s@),
            Entity::Project(t, s) => EntityView::Project(*t, s@),
            Entity::AllUsers => EntityView::AllUsers,
            Entity::AllAuthenticatedUsers => EntityView::AllAuthenticatedUsers,
        }
    }
}

/// The wire form of an entity.
pub open spec fn entity_text(e: EntityView) -> Seq<char> {
    match e {
        EntityView::UserId(s) => "user-"@ + s,
        EntityView::UserEmail(s) => "user-"@ + s,
        EntityView::GroupId(s) => "group-"@ + s,
        EntityView::GroupEmail(s) => "group-"@ + s,
        EntityView::Domain(s) => "domain-"@ + s,
        EntityView::Project(t, s) => "project-"@ + team_text(t) + "-"@ + s,
        EntityView::AllUsers => "allUsers"@,
        EntityView::AllAuthenticatedUsers => "allAuthenticatedUsers"@,
    }
}

/// The project entity whose wire form, after `project-`, is `rest`: a team, a dash,
/// and a project id without dashes.
pub open spec fn project_entity_of(rest: Seq<char>) -> Option<EntityView> {
    let (t, p) = if has_prefix(rest, "editors-"@) {
        (Team::Editors, "editors-"@)
    } else if has_prefix(rest, "owners-"@) {
        (Team::Owners, "owners-"@)
    } else {
        (Team::Viewers, "viewers-"@)
    };
    if has_prefix(rest, p) && !after(rest, p.len()).contains('-') {
        Some(EntityView::Project(t, after(rest, p.len())))
    } else {
        None
    }
}

/// The entity whose wire form is `s`. After `user-` or `group-`, a text with `@` is an
/// email, any other an id.
pub open spec fn entity_of(s: Seq<char>) -> Option<EntityView> {
    if has_prefix(s, "user-"@) {
        let rest = after(s, "user-"@.len());
        if rest.contains('@') {
            Some(EntityView::UserEmail(rest))
        } else {
            Some(EntityView::UserId(rest))
        }
    } else if has_prefix(s, "group-"@) {
        let rest = after(s, "group-"@.len());
        if rest.contains('@') {
            Some(EntityView::GroupEmail(rest))
        } else {
            Some(EntityView::GroupId(rest))
        }
    } else if has_prefix(s, "domain-"@) {
        Some(EntityView::Domain(after(s, "domain-"@.len())))
    } else if has_prefix(s, "project-"@) {
        project_entity_of(after(s, "project-"@.len()))
    } else if s == "allUsers"@ {
        Some(EntityView::AllUsers)
    } else if s == "allAuthenticatedUsers"@ {
        Some(EntityView::AllAuthenticatedUsers)
    } else {
        None
    }
}

/// The entity that an optional JSON member names.
pub open spec fn entity_in(v: Option<Json>) -> Option<EntityView> {
    match text_of(v) {
        Some(s) => entity_of(s),
        None => None,
    }
}

/// An entity whose text form reads back as itself: an id holds no `@`, an email holds
/// one, and a project id holds no `-`.
pub open spec fn entity_wf(e: EntityView) -> bool {
    match e {
        EntityView::UserId(s) => !s.contains('@'),
        EntityView::UserEmail(s) => s.contains('@'),
        EntityView::GroupId(s) => !s.contains('@'),
        EntityView::GroupEmail(s) => s.contains('@'),
        EntityView::Project(_, s) => !s.contains('-'),
        _ => true,
    }
}

proof fn lemma_prefix_of_concat(p: Seq<char>, s: Seq<char>)
    ensures
        has_prefix(p + s, p),
        after(p + s, p.len()) == s,
{
    assert((p + s).subrange(0, p.len() as int) =~= p);
    assert(after(p + s, p.len()) =~= s);
}

proof fn lemma_no_prefix(s: Seq<char>, p: Seq<char>)
    requires
        s.len() > 0,
        p.len() > 0,
        s[0] != p[0],
    ensures
        !has_prefix(s, p),
{
    if has_prefix(s, p) {
        assert(s.subrange(0, p.len() as int)[0] == s[0]);
    }
}

/// The text form of a well-formed entity reads back as that entity.
pub proof fn lemma_entity_text(e: EntityView)
    requires
        entity_wf(e),
    ensures
        entity_of(entity_text(e)) == Some(e),
{
    reveal_strlit("user-");
    reveal_strlit("group-");
    reveal_strlit("domain-");
    reveal_strlit("project-");
    reveal_strlit("allUsers");
    reveal_strlit("allAuthenticatedUsers");
    reveal_strlit("editors-");
    reveal_strlit("owners-");
    reveal_strlit("viewers-");
    reveal_strlit("editors");
    reveal_strlit("owners");
    reveal_strlit("viewers");
    reveal_strlit("-");
    let t = entity_text(e);
    match e {
        EntityView::UserId(s) => {
            lemma_prefix_of_concat("user-"@, s);
        },
        EntityView::UserEmail(s) => {
            lemma_prefix_of_concat("user-"@, s);
        },
        EntityView::GroupId(s) => {
            lemma_no_prefix(t, "user-"@);
            lemma_prefix_of_concat("group-"@, s);
        },
        EntityView::GroupEmail(s) => {
            lemma_no_prefix(t, "user-"@);
            lemma_prefix_of_concat("group-"@, s);
        },
        EntityView::Domain(s) => {
            lemma_no_prefix(t, "user-"@);
            lemma_no_prefix(t, "group-"@);
            lemma_prefix_of_concat("domain-"@, s);
        },
        EntityView::Project(team, s) => {
            lemma_no_prefix(t, "user-"@);
            lemma_no_prefix(t, "group-"@);
            lemma_no_prefix(t, "domain-"@);
            let rest = team_text(team) + "-"@ + s;
            assert(t =~= "project-"@ + rest);
            lemma_prefix_of_concat("project-"@, rest);
            let p = team_text(team) + "-"@;
            assert(rest =~= p + s);
            lemma_prefix_of_concat(p, s);
            match team {
                Team::Editors => {
                    assert(p =~= "editors-"@);
                },
                Team::Owners => {
                    assert(p =~= "owners-"@);
                    lemma_no_prefix(rest, "editors-"@);
                },
                Team::Viewers => {
                    assert(p =~= "viewers-"@);
                    lemma_no_prefix(rest, "editors-"@);
                    lemma_no_prefix(rest, "owners-"@);
                },
            }
        },
        EntityView::AllUsers => {
            lemma_no_prefix(t, "user-"@);
            lemma_no_prefix(t, "group-"@);
            lemma_no_prefix(t, "domain-"@);
            lemma_no_prefix(t, "project-"@);
        },
        EntityView::AllAuthenticatedUsers => {
            lemma_no_prefix(t, "user-"@);
            lemma_no_prefix(t, "group-"@);
            lemma_no_prefix(t, "domain-"@);
            lemma_no_prefix(t, "project-"@);
            assert(t.len() != "allUsers"@.len());
        },
    }
}

fn contains_char(s: &str, c: char) -> (r: bool)
    ensures
        r == s@.contains(c),
{
    crate::text::find_char(s, c).is_some()
}

impl Entity {
    /// The wire form of this entity.
    pub fn to_text(&self) -> (r: String)
        ensures
            r@ == entity_text(self@),
    {
        match self {
            Entity::UserId(s) => String::from_str("user-").concat(s.as_str()),
            Entity::UserEmail(s) => String::from_str("user-").concat(s.as_str()),
            Entity::GroupId(s) => String::from_str("group-").concat(s.as_str()),
            Entity::GroupEmail(s) => String::from_str("group-").concat(s.as_str()),
            Entity::Domain(s) => String::from_str("domain-").concat(s.as_str()),
            Entity::Project(t, s) => String::from_str("project-").concat(t.as_text()).concat(
                "-",
            ).concat(s.as_str()),
            Entity::AllUsers => String::from_str("allUsers"),
            Entity::AllAuthenticatedUsers => String::from_str("allAuthenticatedUsers"),
        }
    }

    fn parse_project(rest: &str) -> (r: Option<Entity>)
        ensures
            match r {
                Some(e) => project_entity_of(rest@) == Some(e@),
                None => project_entity_of(rest@) is None,
            },
    {
        let (t, p) = if starts_with(rest, "editors-") {
            (Team::Editors, "editors-")
        } else if starts_with(rest, "owners-") {
            (Team::Owners, "owners-")
        } else {
            (Team::Viewers, "viewers-")
        };
        if starts_with(rest, p) {
            let id = drop_chars(rest, p.unicode_len());
            if !contains_char(id.as_str(), '-') {
                return Some(Entity::Project(t, id));
            }
        }
        None
    }

    /// The entity with wire form `s`.
    pub fn parse(s: &str) -> (r: Option<Entity>)
        ensures
            match r {
                Some(e) => entity_of(s@) == Some(e@),
                None => entity_of(s@) is None,
            },
    {
        if starts_with(s, "user-") {
            let rest = drop_chars(s, "user-".unicode_len());
            if contains_char(rest.as_str(), '@') {
                Some(Entity::UserEmail(rest))
            } else {
                Some(Entity::UserId(rest))
            }
        } else if starts_with(s, "group-") {
            let rest = drop_chars(s, "group-".unicode_len());
            if contains_char(rest.as_str(), '@') {
                Some(Entity::GroupEmail(rest))
            } else {
                Some(Entity::GroupId(rest))
            }
        } else if starts_with(s, "domain-") {
            Some(Entity::Domain(drop_chars(s, "domain-".unicode_len())))
        } else if starts_with(s, "project-") {
            let rest = drop_chars(s, "project-".unicode_len());
            Entity::parse_project(rest.as_str())
        } else if same(s, "allUsers") {
            Some(Entity::AllUsers)
        } else if same(s, "allAuthenticatedUsers") {
            Some(Entity::AllAuthenticatedUsers)
        } else {
            None
        }
    }

    /// The JSON string for this entity.
    pub fn to_json(&self) -> (r: Json)
        ensures
            text_of(Some(r)) == Some(entity_text(self@)),
            entity_wf(self@) ==> entity_in(Some(r)) == Some(self@),
    {
        proof {
            if entity_wf(self@) {
                lemma_entity_text(self@);
            }
        }
        Json::Str(self.to_text())
    }

    /// Reads an entity from an optional JSON member.
    pub fn from_member(v: Option<&Json>) -> (r: Option<Entity>)
        ensures
            match r {
                Some(e) => entity_in(deref(v)) == Some(e@),
                None => entity_in(deref(v)) is None,
            },
    {
        match v {
            Some(Json::Str(s)) => Entity::parse(s.as_str()),
            _ => None,
        }
    }
}

/// The entity and role that a JSON object grants.
pub open spec fn grant_of(j: Json) -> Option<(EntityView, Role)> {
    match (entity_in(field(j, "entity"@)), role_in(field(j, "role"@))) {
        (Some(e), Some(r)) => Some((e, r)),
        _ => None,
    }
}

/// The JSON object `{"entity": .., "role": ..}` that asks for a new entry.
pub fn grant_json(entity: &Entity, role: Role) -> (r: Json)
    ensures
        r matches Json::Object(f) && f@.len() == 2,
        text_of(field(r, "entity"@)) == Some(entity_text(entity@)),
        role_in(field(r, "role"@)) == Some(role),
        entity_wf(entity@) ==> grant_of(r) == Some((entity@, role)),
{
    let mut fields: Vec<(String, Json)> = Vec::new();
    put(&mut fields, "entity", entity.to_json());
    put(&mut fields, "role", role.to_json());
    proof {
        reveal_strlit("entity");
        reveal_strlit("role");
        assert("entity"@.len() != "role"@.len());
    }
    Json::Object(fields)
}

/// The member names of the access-control records, and of the error member, differ: each
/// by its length or by one of its first two characters.
pub proof fn lemma_record_keys()
    ensures
        "kind"@.len() == 4 && "kind"@[0] == 'k',
        "id"@.len() == 2 && "id"@[0] == 'i',
        "selfLink"@.len() == 8 && "selfLink"@[0] == 's',
        "bucket"@.len() == 6 && "bucket"@[0] == 'b',
        "object"@.len() == 6 && "object"@[0] == 'o',
        "generation"@.len() == 10 && "generation"@[0] == 'g',
        "entity"@.len() == 6 && "entity"@[0] == 'e',
        "role"@.len() == 4 && "role"@[0] == 'r',
        "email"@.len() == 5 && "email"@[0] == 'e' && "email"@[1] == 'm',
        "entityId"@.len() == 8 && "entityId"@[0] == 'e',
        "domain"@.len() == 6 && "domain"@[0] == 'd',
        "projectTeam"@.len() == 11 && "projectTeam"@[0] == 'p',
        "etag"@.len() == 4 && "etag"@[0] == 'e',
        "error"@.len() == 5 && "error"@[0] == 'e' && "error"@[1] == 'r',
{
    reveal_strlit("kind");
    reveal_strlit("id");
    reveal_strlit("selfLink");
    reveal_strlit("bucket");
    reveal_strlit("object");
    reveal_strlit("generation");
    reveal_strlit("entity");
    reveal_strlit("role");
    reveal_strlit("email");
    reveal_strlit("entityId");
    reveal_strlit("domain");
    reveal_strlit("projectTeam");
    reveal_strlit("etag");
    reveal_strlit("error");
}

} // verus!
