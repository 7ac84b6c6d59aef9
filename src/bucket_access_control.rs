//! Access-control entries of buckets.
use crate::common::{
    lemma_record_keys,
    entity_in, entity_text, entity_wf, grant_json, opt_project_team_of, opt_team_view, role_in,
    Entity, EntityView, ProjectTeam, ProjectTeamView, Role,
};
use crate::error::{need, Error, Result};
use crate::json::{field, parsed_json, opt_str, opt_text_of, opt_view, put, text_of, Json};
use crate::path::seg;
use crate::request::{join, plain, with_body, Client, Method, Request};
use crate::response::{all_read, decode_body, items_in, list_items, list_outcome, record_outcome};
use vstd::prelude::*;

verus! {

broadcast use crate::json::lemma_member_of_push;

/// Who may do what with a bucket: one entry of its access-control list.
///
/// Readers may list the bucket's objects; writers may also add and delete objects;
/// owners may also read and change the bucket's access-control list.
#[derive(Debug)]
pub struct BucketAccessControl {
    /// Always `storage#bucketAccessControl`.
    pub kind: String,
    /// The id of the entry.
    pub id: String,
    /// The link to the entry.
    pub self_link: String,
    /// The name of the bucket.
    pub bucket: String,
    /// Who the entry is for.
    pub entity: Entity,
    /// What the entity may do.
    pub role: Role,
    /// The email address of the entity, if any.
    pub email: Option<String>,
    /// The id of the entity, if any.
    pub entity_id: Option<String>,
    /// The domain of the entity, if any.
    pub domain: Option<String>,
    /// The project team of the entity, if any.
    pub project_team: Option<ProjectTeam>,
    /// The HTTP entity tag of the entry.
    pub etag: String,
}

/// The content of a `BucketAccessControl`.
pub struct BucketAccessControlView {
    pub kind: Seq<char>,
    pub id: Seq<char>,
    pub self_link: Seq<char>,
    pub bucket: Seq<char>,
    pub entity: EntityView,
    pub role: Role,
    pub email: Option<Seq<char>>,
    pub entity_id: Option<Seq<char>>,
    pub domain: Option<Seq<char>>,
    pub project_team: Option<ProjectTeamView>,
    pub etag: Seq<char>,
}

impl View for BucketAccessControl {
    type V = BucketAccessControlView;

    open spec fn view(&self) -> BucketAccessControlView {
        BucketAccessControlView {
            kind: self.kind@,
            id: self.id@,
            self_link: self.self_link@,
            bucket: self.bucket@,
            entity: self.entity@,
            role: self.role,
            email: opt_view(self.email),
            entity_id: opt_view(self.entity_id),
            domain: opt_view(self.domain),
            project_team: opt_team_view(self.project_team),
            etag: self.etag@,
        }
    }
}

/// The entry that a JSON object describes, with its members in camelCase.
pub open spec fn bucket_acl_of(j: Json) -> Option<BucketAccessControlView> {
    let kind = text_of(field(j, "kind"@));
    let id = text_of(field(j, "id"@));
    let self_link = text_of(field(j, "selfLink"@));
    let bucket = text_of(field(j, "bucket"@));
    let entity = entity_in(field(j, "entity"@));
    let role = role_in(field(j, "role"@));
    let email = opt_text_of(field(j, "email"@));
    let entity_id = opt_text_of(field(j, "entityId"@));
    let domain = opt_text_of(field(j, "domain"@));
    let project_team = opt_project_team_of(field(j, "projectTeam"@));
    let etag = text_of(field(j, "etag"@));
    if kind is Some && id is Some && self_link is Some && bucket is Some && entity is Some
        && role is Some && email is Some && entity_id is Some && domain is Some
        && project_team is Some && etag is Some {
        Some(
            BucketAccessControlView {
                kind: kind->0,
                id: id->0,
                self_link: self_link->0,
                bucket: bucket->0,
                entity: entity->0,
                role: role->0,
                email: email->0,
                entity_id: entity_id->0,
                domain: domain->0,
                project_team: project_team->0,
                etag: etag->0,
            },
        )
    } else {
        None
    }
}

/// The address of a bucket's access-control list.
pub open spec fn bucket_acl_url(base: Seq<char>, bucket: Seq<char>) -> Seq<char> {
    base + "/b/"@ + seg(bucket) + "/acl"@
}

/// The address of one entry of a bucket's access-control list.
pub open spec fn bucket_acl_entry_url(
    base: Seq<char>,
    bucket: Seq<char>,
    entity: EntityView,
) -> Seq<char> {
    bucket_acl_url(base, bucket) + "/"@ + seg(entity_text(entity))
}

/// A request for a new entry: who, and what they may do.
#[derive(Debug)]
pub struct NewBucketAccessControl {
    /// Who the entry is for.
    pub entity: Entity,
    /// What the entity may do.
    pub role: Role,
}

impl BucketAccessControl {
    /// Reads an entry from its JSON object.
    pub fn from_json(j: &Json) -> (r: Result<BucketAccessControl>)
        ensures
            match bucket_acl_of(*j) {
                Some(v) => r matches Ok(x) && x@ == v,
                None => r matches Err(Error::Decode(_)),
            },
    {
        Ok(BucketAccessControl {
            kind: need(j.text("kind"), "kind")?,
            id: need(j.text("id"), "id")?,
            self_link: need(j.text("selfLink"), "selfLink")?,
            bucket: need(j.text("bucket"), "bucket")?,
            entity: need(Entity::from_member(j.get("entity")), "entity")?,
            role: need(Role::from_member(j.get("role")), "role")?,
            email: need(j.opt_text("email"), "email")?,
            entity_id: need(j.opt_text("entityId"), "entityId")?,
            domain: need(j.opt_text("domain"), "domain")?,
            project_team: need(ProjectTeam::from_member(j.get("projectTeam")), "projectTeam")?,
            etag: need(j.text("etag"), "etag")?,
        })
    }

    /// The JSON object for this entry, with its members in camelCase. It reads back as
    /// this entry wherever the entity's text form does.
    pub fn to_json(&self) -> (r: Json)
        ensures
            text_of(field(r, "entity"@)) == Some(entity_text(self.entity@)),
            field(r, "error"@) is None,
            entity_wf(self.entity@) ==> bucket_acl_of(r) == Some(self@),
    {
        let mut f: Vec<(String, Json)> = Vec::new();
        put(&mut f, "kind", Json::Str(self.kind.clone()));
        put(&mut f, "id", Json::Str(self.id.clone()));
        put(&mut f, "selfLink", Json::Str(self.self_link.clone()));
        put(&mut f, "bucket", Json::Str(self.bucket.clone()));
        put(&mut f, "entity", self.entity.to_json());
        put(&mut f, "role", self.role.to_json());
        put(&mut f, "email", opt_str(&self.email));
        put(&mut f, "entityId", opt_str(&self.entity_id));
        put(&mut f, "domain", opt_str(&self.domain));
        put(&mut f, "projectTeam", ProjectTeam::opt_to_json(&self.project_team));
        put(&mut f, "etag", Json::Str(self.etag.clone()));
        proof {
            lemma_record_keys();
        }
        Json::Object(f)
    }
}

impl NewBucketAccessControl {
    /// The JSON body that asks for this entry: exactly its entity and its role.
    pub fn to_json(&self) -> (r: Json)
        ensures
            r matches Json::Object(f) && f@.len() == 2,
            text_of(field(r, "entity"@)) == Some(entity_text(self.entity@)),
            role_in(field(r, "role"@)) == Some(self.role),
    {
        grant_json(&self.entity, self.role)
    }
}

impl BucketAccessControl {
    /// The request that adds an entry to the access-control list of `bucket`.
    pub fn create_request(client: &Client, bucket: &str, new: &NewBucketAccessControl) -> (r:
        Request)
        ensures
            r.method == Method::Post,
            r.url@ == bucket_acl_url(client.base_url@, bucket@),
            r.query@.len() == 0,
            r.body matches Some(b) && b matches Json::Object(f) && f@.len() == 2 && text_of(
                field(b, "entity"@),
            ) == Some(entity_text(new.entity@)) && role_in(field(b, "role"@)) == Some(new.role),
    {
        let url = join(client.base_url.clone(), "/b/", bucket).concat("/acl");
        with_body(Method::Post, url, new.to_json())
    }

    /// The request that lists the access-control entries of `bucket`.
    pub fn list_request(client: &Client, bucket: &str) -> (r: Request)
        ensures
            r.method == Method::Get,
            r.url@ == bucket_acl_url(client.base_url@, bucket@),
            r.query@.len() == 0,
            r.body is None,
    {
        let url = join(client.base_url.clone(), "/b/", bucket).concat("/acl");
        plain(Method::Get, url)
    }

    /// The request that reads the entry of `entity` on `bucket`.
    pub fn read_request(client: &Client, bucket: &str, entity: &Entity) -> (r: Request)
        ensures
            r.method == Method::Get,
            r.url@ == bucket_acl_entry_url(client.base_url@, bucket@, entity@),
            r.query@.len() == 0,
            r.body is None,
    {
        let url = join(client.base_url.clone(), "/b/", bucket).concat("/acl");
        let url = join(url, "/", entity.to_text().as_str());
        plain(Method::Get, url)
    }

    /// The request that replaces this entry with its present content.
    pub fn update_request(&self, client: &Client) -> (r: Request)
        ensures
            r.method == Method::Put,
            r.url@ == bucket_acl_entry_url(client.base_url@, self.bucket@, self.entity@),
            r.query@.len() == 0,
            r.body matches Some(b) && text_of(field(b, "entity"@)) == Some(
                entity_text(self.entity@),
            ) && field(b, "error"@) is None && (entity_wf(self.entity@) ==> bucket_acl_of(b) == Some(self@)),
    {
        let url = join(client.base_url.clone(), "/b/", self.bucket.as_str()).concat("/acl");
        let url = join(url, "/", self.entity.to_text().as_str());
        with_body(Method::Put, url, self.to_json())
    }

    /// The request that deletes this entry.
    pub fn delete_request(&self, client: &Client) -> (r: Request)
        ensures
            r.method == Method::Delete,
            r.url@ == bucket_acl_entry_url(client.base_url@, self.bucket@, self.entity@),
            r.query@.len() == 0,
            r.body is None,
    {
        let url = join(client.base_url.clone(), "/b/", self.bucket.as_str()).concat("/acl");
        let url = join(url, "/", self.entity.to_text().as_str());
        plain(Method::Delete, url)
    }

    /// Reads the response to a create, read or update.
    pub fn from_response(body: &str) -> (r: Result<BucketAccessControl>)
        ensures
            record_outcome(
                body@,
                r,
                |j: Json| bucket_acl_of(j),
                |x: BucketAccessControl| x@,
            ),
    {
        let j = decode_body(body)?;
        BucketAccessControl::from_json(&j)
    }

    /// Reads the response to a list.
    pub fn list_from_response(body: &str) -> (r: Result<Vec<BucketAccessControl>>)
        ensures
            list_outcome(
                body@,
                r,
                |j: Json| bucket_acl_of(j),
                |x: BucketAccessControl| x@,
            ),
    {
        let j = decode_body(body)?;
        let ghost whole = j;
        let items = list_items(j)?;
        let mut out: Vec<BucketAccessControl> = Vec::new();
        let mut i: usize = 0;
        while i < items.len()
            invariant
                parsed_json(body@) == Some(whole),
                field(whole, "error"@) is None,
                items_in(whole) == Some(items@),
                0 <= i <= items@.len(),
                out@.len() == i,
                forall|k: int| 0 <= k < i ==> bucket_acl_of(#[trigger] items@[k]) == Some(out@[k]@),
            decreases items@.len() - i,
        {
            match BucketAccessControl::from_json(&items[i]) {
                Ok(x) => out.push(x),
                Err(e) => {
                    assert(!all_read(items@, |j: Json| bucket_acl_of(j))) by {
                        assert((|j: Json| bucket_acl_of(j))(items@[i as int]) is None);
                    }
                    return Err(e);
                },
            }
            i = i + 1;
        }
        assert(all_read(items@, |j: Json| bucket_acl_of(j)));
        assert(out@.map_values(|x: BucketAccessControl| x@) =~= items@.map_values(
            |x: Json| (|j: Json| bucket_acl_of(j))(x)->0,
        ));
        Ok(out)
    }
}

/// An entry sent in an update, read back from a reply whose body is the body that was
/// sent, is the entry that was sent, member for member. The sent body reads as the entry
/// wherever the entity's text form reads back as itself (`update_request`).
pub proof fn lemma_update_read_back(
    sent: BucketAccessControl,
    request: Request,
    reply: Seq<char>,
    read: Result<BucketAccessControl>,
)
    requires
        request.body matches Some(b) && field(b, "error"@) is None && bucket_acl_of(b) == Some(sent@),
        request.body matches Some(b) && parsed_json(reply) == Some(b),
        record_outcome(reply, read, |j: Json| bucket_acl_of(j), |x: BucketAccessControl| x@),
    ensures
        read matches Ok(x) && x@ == sent@,
{
}

} // verus!
