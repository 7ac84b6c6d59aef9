//! Access-control entries of objects.
use crate::common::{
    lemma_record_keys,
    entity_in, entity_text, entity_wf, grant_json, opt_project_team_of, opt_team_view, role_in,
    Entity, EntityView, ProjectTeam, ProjectTeamView, Role,
};
use crate::error::{need, Error, Result};
use crate::json::{field, parsed_json, opt_str, opt_text_of, opt_view, put, text_of, Json};
use crate::path::seg;
use crate::request::{join, plain, with_body, Client, Method, Request};
use crate::response::{all_read, decode_body, items_in, list_items, list_outcome, record_outcome};
use vstd::prelude::*;

verus! {

broadcast use crate::json::lemma_member_of_push;

/// Who may do what with an object: one entry of its access-control list.
///
/// Readers may read the object and its metadata; owners may also read and change its
/// access-control list.
#[derive(Debug)]
pub struct ObjectAccessControl {
    /// Always `storage#objectAccessControl`.
    pub kind: String,
    /// The id of the entry.
    pub id: String,
    /// The link to the entry.
    pub self_link: String,
    /// The name of the bucket.
    pub bucket: String,
    /// The name of the object.
    pub object: String,
    /// The generation of the object, where the entry applies to one generation.
    pub generation: Option<String>,
    /// Who the entry is for.
    pub entity: Entity,
    /// What the entity may do.
    pub role: Role,
    /// The email address of the entity, if any.
    pub email: Option<String>,
    /// The id of the entity, if any.
    pub entity_id: Option<String>,
    /// The domain of the entity, if any.
    pub domain: Option<String>,
    /// The project team of the entity, if any.
    pub project_team: Option<ProjectTeam>,
    /// The HTTP entity tag of the entry.
    pub etag: String,
}

/// The content of a `ObjectAccessControl`.
pub struct ObjectAccessControlView {
    pub kind: Seq<char>,
    pub id: Seq<char>,
    pub self_link: Seq<char>,
    pub bucket: Seq<char>,
    pub object: Seq<char>,
    pub generation: Option<Seq<char>>,
    pub entity: EntityView,
    pub role: Role,
    pub email: Option<Seq<char>>,
    pub entity_id: Option<Seq<char>>,
    pub domain: Option<Seq<char>>,
    pub project_team: Option<ProjectTeamView>,
    pub etag: Seq<char>,
}

impl View for ObjectAccessControl {
    type V = ObjectAccessControlView;

    open spec fn view(&self) -> ObjectAccessControlView {
        ObjectAccessControlView {
            kind: self.kind@,
            id: self.id@,
            self_link: self.self_link@,
            bucket: self.bucket@,
            object: self.object@,
            generation: opt_view(self.generation),
            entity: self.entity@,
            role: self.role,
            email: opt_view(self.email),
            entity_id: opt_view(self.entity_id),
            domain: opt_view(self.domain),
            project_team: opt_team_view(self.project_team),
            etag: self.etag@,
        }
    }
}

/// The entry that a JSON object describes, with its members in camelCase.
pub open spec fn object_acl_of(j: Json) -> Option<ObjectAccessControlView> {
    let kind = text_of(field(j, "kind"@));
    let id = text_of(field(j, "id"@));
    let self_link = text_of(field(j, "selfLink"@));
    let bucket = text_of(field(j, "bucket"@));
    let object = text_of(field(j, "object"@));
    let generation = opt_text_of(field(j, "generation"@));
    let entity = entity_in(field(j, "entity"@));
    let role = role_in(field(j, "role"@));
    let email = opt_text_of(field(j, "email"@));
    let entity_id = opt_text_of(field(j, "entityId"@));
    let domain = opt_text_of(field(j, "domain"@));
    let project_team = opt_project_team_of(field(j, "projectTeam"@));
    let etag = text_of(field(j, "etag"@));
    if kind is Some && id is Some && self_link is Some && bucket is Some && object is Some
        && generation is Some && entity is Some
        && role is Some && email is Some && entity_id is Some && domain is Some
        && project_team is Some && etag is Some {
        Some(
            ObjectAccessControlView {
                kind: kind->0,
                id: id->0,
                self_link: self_link->0,
                bucket: bucket->0,
                object: object->0,
                generation: generation->0,
                entity: entity->0,
                role: role->0,
                email: email->0,
                entity_id: entity_id->0,
                domain: domain->0,
                project_team: project_team->0,
                etag: etag->0,
            },
        )
    } else {
        None
    }
}

/// The address of an object's access-control list.
pub open spec fn object_acl_url(base: Seq<char>, bucket: Seq<char>, object: Seq<char>) -> Seq<
    char,
> {
    base + "/b/"@ + seg(bucket) + "/o/"@ + seg(object) + "/acl"@
}

/// The address of one entry of an object's access-control list.
pub open spec fn object_acl_entry_url(
    base: Seq<char>,
    bucket: Seq<char>,
    object: Seq<char>,
    entity: EntityView,
) -> Seq<char> {
    object_acl_url(base, bucket, object) + "/"@ + seg(entity_text(entity))
}

/// A request for a new entry: who, and what they may do.
#[derive(Debug)]
pub struct NewObjectAccessControl {
    /// Who the entry is for.
    pub entity: Entity,
    /// What the entity may do.
    pub role: Role,
}

impl ObjectAccessControl {
    /// Reads an entry from its JSON object.
    pub fn from_json(j: &Json) -> (r: Result<ObjectAccessControl>)
        ensures
            match object_acl_of(*j) {
                Some(v) => r matches Ok(x) && x@ == v,
                None => r matches Err(Error::Decode(_)),
            },
    {
        Ok(ObjectAccessControl {
            kind: need(j.text("kind"), "kind")?,
            id: need(j.text("id"), "id")?,
            self_link: need(j.text("selfLink"), "selfLink")?,
            bucket: need(j.text("bucket"), "bucket")?,
            object: need(j.text("object"), "object")?,
            generation: need(j.opt_text("generation"), "generation")?,
            entity: need(Entity::from_member(j.get("entity")), "entity")?,
            role: need(Role::from_member(j.get("role")), "role")?,
            email: need(j.opt_text("email"), "email")?,
            entity_id: need(j.opt_text("entityId"), "entityId")?,
            domain: need(j.opt_text("domain"), "domain")?,
            project_team: need(ProjectTeam::from_member(j.get("projectTeam")), "projectTeam")?,
            etag: need(j.text("etag"), "etag")?,
        })
    }

    /// The JSON object for this entry, with its members in camelCase. It reads back as
    /// this entry wherever the entity's text form does.
    pub fn to_json(&self) -> (r: Json)
        ensures
            text_of(field(r, "entity"@)) == Some(entity_text(self.entity@)),
            field(r, "error"@) is None,
            entity_wf(self.entity@) ==> object_acl_of(r) == Some(self@),
    {
        let mut f: Vec<(String, Json)> = Vec::new();
        put(&mut f, "kind", Json::Str(self.kind.clone()));
        put(&mut f, "id", Json::Str(self.id.clone()));
        put(&mut f, "selfLink", Json::Str(self.self_link.clone()));
        put(&mut f, "bucket", Json::Str(self.bucket.clone()));
        put(&mut f, "object", Json::Str(self.object.clone()));
        put(&mut f, "generation", opt_str(&self.generation));
        put(&mut f, "entity", self.entity.to_json());
        put(&mut f, "role", self.role.to_json());
        put(&mut f, "email", opt_str(&self.email));
        put(&mut f, "entityId", opt_str(&self.entity_id));
        put(&mut f, "domain", opt_str(&self.domain));
        put(&mut f, "projectTeam", ProjectTeam::opt_to_json(&self.project_team));
        put(&mut f, "etag", Json::Str(self.etag.clone()));
        proof {
            lemma_record_keys();
        }
        Json::Object(f)
    }
}

impl NewObjectAccessControl {
    /// The JSON body that asks for this entry: exactly its entity and its role.
    pub fn to_json(&self) -> (r: Json)
        ensures
            r matches Json::Object(f) && f@.len() == 2,
            text_of(field(r, "entity"@)) == Some(entity_text(self.entity@)),
            role_in(field(r, "role"@)) == Some(self.role),
    {
        grant_json(&self.entity, self.role)
    }
}

impl ObjectAccessControl {
    /// The request that adds an entry to the access-control list of `object` in `bucket`.
    pub fn create_request(
        client: &Client,
        bucket: &str,
        object: &str,
        new: &NewObjectAccessControl,
    ) -> (r: Request)
        ensures
            r.method == Method::Post,
            r.url@ == object_acl_url(client.base_url@, bucket@, object@),
            r.query@.len() == 0,
            r.body matches Some(b) && b matches Json::Object(f) && f@.len() == 2 && text_of(
                field(b, "entity"@),
            ) == Some(entity_text(new.entity@)) && role_in(field(b, "role"@)) == Some(new.role),
    {
        let url = join(client.base_url.clone(), "/b/", bucket);
        let url = join(url, "/o/", object).concat("/acl");
        with_body(Method::Post, url, new.to_json())
    }

    /// The request that lists the access-control entries of `object` in `bucket`.
    pub fn list_request(client: &Client, bucket: &str, object: &str) -> (r: Request)
        ensures
            r.method == Method::Get,
            r.url@ == object_acl_url(client.base_url@, bucket@, object@),
            r.query@.len() == 0,
            r.body is None,
    {
        let url = join(client.base_url.clone(), "/b/", bucket);
        let url = join(url, "/o/", object).concat("/acl");
        plain(Method::Get, url)
    }

    /// The request that reads the entry of `entity` on `object` in `bucket`.
    pub fn read_request(client: &Client, bucket: &str, object: &str, entity: &Entity) -> (r:
        Request)
        ensures
            r.method == Method::Get,
            r.url@ == object_acl_entry_url(client.base_url@, bucket@, object@, entity@),
            r.query@.len() == 0,
            r.body is None,
    {
        let url = join(client.base_url.clone(), "/b/", bucket);
        let url = join(url, "/o/", object).concat("/acl");
        let url = join(url, "/", entity.to_text().as_str());
        plain(Method::Get, url)
    }

    /// The request that replaces this entry with its present content.
    pub fn update_request(&self, client: &Client) -> (r: Request)
        ensures
            r.method == Method::Put,
            r.url@ == object_acl_entry_url(
                client.base_url@,
                self.bucket@,
                self.object@,
                self.entity@,
            ),
            r.query@.len() == 0,
            r.body matches Some(b) && text_of(field(b, "entity"@)) == Some(
                entity_text(self.entity@),
            ) && field(b, "error"@) is None && (entity_wf(self.entity@) ==> object_acl_of(b) == Some(self@)),
    {
        let url = join(client.base_url.clone(), "/b/", self.bucket.as_str());
        let url = join(url, "/o/", self.object.as_str()).concat("/acl");
        let url = join(url, "/", self.entity.to_text().as_str());
        with_body(Method::Put, url, self.to_json())
    }

    /// The request that deletes this entry.
    pub fn delete_request(&self, client: &Client) -> (r: Request)
        ensures
            r.method == Method::Delete,
            r.url@ == object_acl_entry_url(
                client.base_url@,
                self.bucket@,
                self.object@,
                self.entity@,
            ),
            r.query@.len() == 0,
            r.body is None,
    {
        let url = join(client.base_url.clone(), "/b/", self.bucket.as_str());
        let url = join(url, "/o/", self.object.as_str()).concat("/acl");
        let url = join(url, "/", self.entity.to_text().as_str());
        plain(Method::Delete, url)
    }

    /// Reads the response to a create, read or update.
    pub fn from_response(body: &str) -> (r: Result<ObjectAccessControl>)
        ensures
            record_outcome(
                body@,
                r,
                |j: Json| object_acl_of(j),
                |x: ObjectAccessControl| x@,
            ),
    {
        let j = decode_body(body)?;
        ObjectAccessControl::from_json(&j)
    }

    /// Reads the response to a list.
    pub fn list_from_response(body: &str) -> (r: Result<Vec<ObjectAccessControl>>)
        ensures
            list_outcome(
                body@,
                r,
                |j: Json| object_acl_of(j),
                |x: ObjectAccessControl| x@,
            ),
    {
        let j = decode_body(body)?;
        let ghost whole = j;
        let items = list_items(j)?;
        let mut out: Vec<ObjectAccessControl> = Vec::new();
        let mut i: usize = 0;
        while i < items.len()
            invariant
                parsed_json(body@) == Some(whole),
                field(whole, "error"@) is None,
                items_in(whole) == Some(items@),
                0 <= i <= items@.len(),
                out@.len() == i,
                forall|k: int| 0 <= k < i ==> object_acl_of(#[trigger] items@[k]) == Some(out@[k]@),
            decreases items@.len() - i,
        {
            match ObjectAccessControl::from_json(&items[i]) {
                Ok(x) => out.push(x),
                Err(e) => {
                    assert(!all_read(items@, |j: Json| object_acl_of(j))) by {
                        assert((|j: Json| object_acl_of(j))(items@[i as int]) is None);
                    }
                    return Err(e);
                },
            }
            i = i + 1;
        }
        assert(all_read(items@, |j: Json| object_acl_of(j)));
        assert(out@.map_values(|x: ObjectAccessControl| x@) =~= items@.map_values(
            |x: Json| (|j: Json| object_acl_of(j))(x)->0,
        ));
        Ok(out)
    }
}

/// An entry sent in an update, read back from a reply whose body is the body that was
/// sent, is the entry that was sent, member for member. The sent body reads as the entry
/// wherever the entity's text form reads back as itself (`update_request`).
pub proof fn lemma_update_read_back(
    sent: ObjectAccessControl,
    request: Request,
    reply: Seq<char>,
    read: Result<ObjectAccessControl>,
)
    requires
        request.body matches Some(b) && field(b, "error"@) is None && object_acl_of(b) == Some(sent@),
        request.body matches Some(b) && parsed_json(reply) == Some(b),
        record_outcome(reply, read, |j: Json| object_acl_of(j), |x: ObjectAccessControl| x@),
    ensures
        read matches Ok(x) && x@ == sent@,
{
}

} // verus!
