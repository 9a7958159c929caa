//! Profile identity and storage boundaries.
//!
//! Stores, journals, and uploads are profile-scoped. Repositories, worktrees,
//! agent credentials, UI settings, and the device id remain device-scoped under
//! the engine data directory.

use vstd::prelude::*;

use crate::auth::types::{error, EngineError};
use crate::ids::{
    is_random_id, random_uuid, uuid_alphabet, uuid_chars, uuid_text, uuid_texts_tell_ids_apart,
};
use crate::proto::profile::ProfileScope;
use crate::text::{join3, join4, texts, to_chars};

verus! {

pub const LOCAL_PROFILE_FILE: &'static str = "local-profile.json";

pub const LOCAL_ORGANIZATION_ID: &'static str = "local";

/// A resolved, immutable identity and storage boundary for one engine runtime. The
/// store and upload roots are given as the directories that lead to them from the
/// device root.
#[derive(Debug, PartialEq, Eq)]
pub struct EngineProfile {
    scope: ProfileScope,
    device_root: String,
    store_root: Vec<String>,
    uploads_root: Vec<String>,
    organization_id: String,
    user_id: String,
}

/// The characters that stand for themselves in the name of a directory.
pub open spec fn path_safe(c: char) -> bool {
    'a' <= c <= 'z' || 'A' <= c <= 'Z' || '0' <= c <= '9' || c == '-' || c == '_'
}

/// An id as the name of a directory: every other character becomes an underscore.
pub open spec fn sanitized(id: Seq<char>) -> Seq<char> {
    id.map_values(
        |c: char|
            if path_safe(c) {
                c
            } else {
                '_'
            },
    )
}

/// An id as the name of a directory.
pub fn sanitize_path_id(id: &str) -> (r: String)
    ensures
        r@ == sanitized(id@),
{
    let chars = to_chars(id);
    let mut out = String::new();
    let mut i: usize = 0;
    assert(sanitized(id@.take(0)) =~= Seq::<char>::empty());
    while i < chars.len()
        invariant
            chars@ == id@,
            i <= chars@.len(),
            out@ == sanitized(id@.take(i as int)),
        decreases chars@.len() - i,
    {
        let c = chars[i];
        let safe = ('a' <= c && c <= 'z') || ('A' <= c && c <= 'Z') || ('0' <= c && c <= '9') || c
            == '-' || c == '_';
        if safe {
            out.push(c);
        } else {
            out.push('_');
        }
        assert(sanitized(id@.take(i + 1)) =~= sanitized(id@.take(i as int)).push(
            if path_safe(c) {
                c
            } else {
                '_'
            },
        ));
        i = i + 1;
    }
    assert(id@.take(i as int) =~= id@);
    out
}

/// A sanitized id is made of safe characters, so it names one directory whatever the
/// id was: it holds no separator and no dot. Sanitizing it again changes nothing.
pub proof fn sanitized_ids_are_safe(id: Seq<char>)
    ensures
        sanitized(id).len() == id.len(),
        forall|i: int| 0 <= i < id.len() ==> path_safe(#[trigger] sanitized(id)[i]),
        forall|i: int|
            0 <= i < id.len() && path_safe(id[i]) ==> #[trigger] sanitized(id)[i] == id[i],
        sanitized(sanitized(id)) == sanitized(id),
{
    assert(sanitized(sanitized(id)) =~= sanitized(id));
}

impl EngineProfile {
    pub closed spec fn spec_scope(self) -> ProfileScope {
        self.scope
    }

    pub closed spec fn device_dir(self) -> Seq<char> {
        self.device_root@
    }

    pub closed spec fn store_dirs(self) -> Seq<Seq<char>> {
        texts(self.store_root@)
    }

    pub closed spec fn uploads_dirs(self) -> Seq<Seq<char>> {
        texts(self.uploads_root@)
    }

    pub closed spec fn organization(self) -> Seq<char> {
        self.organization_id@
    }

    pub closed spec fn user(self) -> Seq<char> {
        self.user_id@
    }

    /// The uploads of a profile lie in its store.
    pub open spec fn wf(self) -> bool {
        self.uploads_dirs() == self.store_dirs().push("uploads"@)
    }

    /// The installation's own profile, under its stable local identity.
    pub fn local(data_dir: &str, profile_id: String) -> (r: Self)
        ensures
            r.wf(),
            r.spec_scope() == ProfileScope::Local,
            r.device_dir() == data_dir@,
            r.store_dirs() == seq!["profiles"@, "local"@],
            r.organization() == LOCAL_ORGANIZATION_ID@,
            r.user() == profile_id@,
    {
        let mut store: Vec<String> = Vec::new();
        store.push("profiles".to_owned());
        store.push("local".to_owned());
        let mut uploads: Vec<String> = Vec::new();
        uploads.push("profiles".to_owned());
        uploads.push("local".to_owned());
        uploads.push("uploads".to_owned());
        assert(texts(store@) =~= seq!["profiles"@, "local"@]);
        assert(texts(uploads@) =~= texts(store@).push("uploads"@));
        EngineProfile {
            scope: ProfileScope::Local,
            device_root: data_dir.to_owned(),
            store_root: store,
            uploads_root: uploads,
            organization_id: LOCAL_ORGANIZATION_ID.to_owned(),
            user_id: profile_id,
        }
    }

    /// Resolve an authenticated profile under its account-specific storage root.
    pub fn synced(data_dir: &str, organization_id: &str, user_id: &str) -> (r: Self)
        ensures
            r.wf(),
            r.spec_scope() == ProfileScope::Synced,
            r.device_dir() == data_dir@,
            r.store_dirs() == seq!["orgs"@, sanitized(organization_id@), sanitized(user_id@)],
            r.organization() == organization_id@,
            r.user() == user_id@,
    {
        Self::account_scoped(data_dir, organization_id, user_id, ProfileScope::Synced)
    }

    /// Resolve the explicit development profile under its account-specific storage root.
    pub fn development(data_dir: &str, organization_id: &str, user_id: &str) -> (r: Self)
        ensures
            r.wf(),
            r.spec_scope() == ProfileScope::Development,
            r.device_dir() == data_dir@,
            r.store_dirs() == seq!["orgs"@, sanitized(organization_id@), sanitized(user_id@)],
            r.organization() == organization_id@,
            r.user() == user_id@,
    {
        Self::account_scoped(data_dir, organization_id, user_id, ProfileScope::Development)
    }

    fn account_scoped(
        data_dir: &str,
        organization_id: &str,
        user_id: &str,
        scope: ProfileScope,
    ) -> (r: Self)
        ensures
            r.wf(),
            r.spec_scope() == scope,
            r.device_dir() == data_dir@,
            r.store_dirs() == seq!["orgs"@, sanitized(organization_id@), sanitized(user_id@)],
            r.organization() == organization_id@,
            r.user() == user_id@,
    {
        let mut store: Vec<String> = Vec::new();
        store.push("orgs".to_owned());
        store.push(sanitize_path_id(organization_id));
        store.push(sanitize_path_id(user_id));
        let mut uploads: Vec<String> = Vec::new();
        uploads.push("orgs".to_owned());
        uploads.push(sanitize_path_id(organization_id));
        uploads.push(sanitize_path_id(user_id));
        uploads.push("uploads".to_owned());
        assert(texts(store@) =~= seq![
            "orgs"@,
            sanitized(organization_id@),
            sanitized(user_id@),
        ]);
        assert(texts(uploads@) =~= texts(store@).push("uploads"@));
        EngineProfile {
            scope,
            device_root: data_dir.to_owned(),
            store_root: store,
            uploads_root: uploads,
            organization_id: organization_id.to_owned(),
            user_id: user_id.to_owned(),
        }
    }

    pub fn scope(&self) -> (r: ProfileScope)
        ensures
            r == self.spec_scope(),
    {
        self.scope
    }

    pub fn device_root(&self) -> (r: &str)
        ensures
            r@ == self.device_dir(),
    {
        self.device_root.as_str()
    }

    pub fn store_root(&self) -> (r: &Vec<String>)
        ensures
            texts(r@) == self.store_dirs(),
    {
        &self.store_root
    }

    pub fn uploads_root(&self) -> (r: &Vec<String>)
        ensures
            texts(r@) == self.uploads_dirs(),
    {
        &self.uploads_root
    }

    pub fn organization_id(&self) -> (r: &str)
        ensures
            r@ == self.organization(),
    {
        self.organization_id.as_str()
    }

    pub fn user_id(&self) -> (r: &str)
        ensures
            r@ == self.user(),
    {
        self.user_id.as_str()
    }
}

// ---------------------------------------------------------------------------
// The local identity
// ---------------------------------------------------------------------------

/// What reading the local profile file gave.
#[derive(Debug, PartialEq, Eq)]
pub enum ProfileRead {
    Missing,
    /// The file could not be read, for the given cause.
    Unreadable(String),
    /// The file is not a profile, for the given cause.
    Malformed(String),
    /// The id in the file.
    Id(u128),
}

/// Why the local identity could not be read.
#[derive(Debug, PartialEq, Eq)]
pub enum ProfileReadError {
    Missing,
    Engine(EngineError),
}

impl ProfileReadError {
    pub fn into_engine(self) -> (r: EngineError)
        ensures
            match self {
                ProfileReadError::Missing => r.text()
                    == "local profile disappeared during creation"@,
                ProfileReadError::Engine(e) => r == e,
            },
    {
        match self {
            ProfileReadError::Missing => error("local profile disappeared during creation"),
            ProfileReadError::Engine(err) => err,
        }
    }
}

/// The message of a failure to read the file at a path.
pub open spec fn read_failure(path: Seq<char>, read: ProfileRead) -> Seq<char> {
    match read {
        ProfileRead::Unreadable(cause) => cause@,
        ProfileRead::Malformed(cause) => "invalid local profile "@ + path + ": "@ + cause@,
        _ => "invalid local profile "@ + path + ": id must not be nil"@,
    }
}

/// The id in the local profile file. The nil id is refused.
pub fn read_local_profile_id(path: &str, read: ProfileRead) -> (r: Result<String, ProfileReadError>)
    ensures
        match read {
            ProfileRead::Missing => r == Err::<String, _>(ProfileReadError::Missing),
            ProfileRead::Id(id) if id != 0 => r is Ok && r->Ok_0@ == uuid_chars(id),
            _ => r is Err && r->Err_0 is Engine && r->Err_0->Engine_0.text() == read_failure(
                path@,
                read,
            ),
        },
{
    match read {
        ProfileRead::Missing => Err(ProfileReadError::Missing),
        ProfileRead::Unreadable(cause) => Err(ProfileReadError::Engine(EngineError::Other(cause))),
        ProfileRead::Malformed(cause) => Err(
            ProfileReadError::Engine(
                EngineError::Other(join4("invalid local profile ", path, ": ", cause.as_str())),
            ),
        ),
        ProfileRead::Id(id) => {
            if id == 0 {
                Err(
                    ProfileReadError::Engine(
                        EngineError::Other(
                            join3("invalid local profile ", path, ": id must not be nil"),
                        ),
                    ),
                )
            } else {
                Ok(uuid_text(id))
            }
        },
    }
}

/// How the publication of a new local profile ended.
#[derive(Debug, PartialEq, Eq)]
pub enum ProfilePublish {
    /// The file could not be written beside its place.
    NotWritten(EngineError),
    /// The file is in its place.
    Linked,
    /// Another process put a file there first; what reading it gave.
    AlreadyExists(ProfileRead),
    /// The file could not be put in its place, for the given cause.
    NotLinked(EngineError),
}

/// What the caller does next for the local identity.
#[derive(Debug, PartialEq, Eq)]
pub enum LocalProfileStep {
    Done(Result<String, EngineError>),
    /// Publish a file with this id without replacing one that is there, then call
    /// `local_profile_published`.
    Create(u128),
}

/// Loads the local identity, or has a new one created where there is none. A file that
/// cannot be read or does not hold a good id is never replaced.
pub fn load_or_create_local_profile_id(path: &str, read: ProfileRead) -> (r: LocalProfileStep)
    ensures
        match read {
            ProfileRead::Missing => r is Create && r->Create_0 != 0 && is_random_id(r->Create_0),
            ProfileRead::Id(id) if id != 0 => r is Done && r->Done_0 is Ok && r->Done_0->Ok_0@
                == uuid_chars(id),
            _ => r is Done && r->Done_0 is Err && r->Done_0->Err_0.text() == read_failure(
                path@,
                read,
            ),
        },
{
    match read_local_profile_id(path, read) {
        Ok(id) => LocalProfileStep::Done(Ok(id)),
        Err(ProfileReadError::Missing) => LocalProfileStep::Create(random_uuid()),
        Err(ProfileReadError::Engine(err)) => LocalProfileStep::Done(Err(err)),
    }
}

/// The local identity once a new one was published: the new id, or the id of the file
/// that was there first.
pub fn local_profile_published(path: &str, id: u128, outcome: ProfilePublish) -> (r: Result<
    String,
    EngineError,
>)
    ensures
        match outcome {
            ProfilePublish::NotWritten(e) => r == Err::<String, _>(e),
            ProfilePublish::NotLinked(e) => r == Err::<String, _>(e),
            ProfilePublish::Linked => r is Ok && r->Ok_0@ == uuid_chars(id),
            ProfilePublish::AlreadyExists(read) => match read {
                ProfileRead::Missing => r is Err && r->Err_0.text()
                    == "local profile disappeared during creation"@,
                ProfileRead::Id(other) if other != 0 => r is Ok && r->Ok_0@ == uuid_chars(other),
                _ => r is Err && r->Err_0.text() == read_failure(path@, read),
            },
        },
{
    match outcome {
        ProfilePublish::NotWritten(e) => Err(e),
        ProfilePublish::NotLinked(e) => Err(e),
        ProfilePublish::Linked => Ok(uuid_text(id)),
        ProfilePublish::AlreadyExists(read) => match read_local_profile_id(path, read) {
            Ok(id) => Ok(id),
            Err(e) => Err(e.into_engine()),
        },
    }
}

/// Two directories under the same root lie apart: on the way to them there is a place
/// where they part, so neither holds the other.
pub open spec fn apart(a: Seq<Seq<char>>, b: Seq<Seq<char>>) -> bool {
    exists|i: int| 0 <= i < a.len() && i < b.len() && #[trigger] a[i] != b[i]
}

/// The stores and uploads of the local profile lie apart from those of every account,
/// whatever its ids are. Those of two accounts lie apart wherever their directory names
/// differ.
pub proof fn profiles_keep_apart(
    data_dir: &str,
    profile_id: String,
    org: &str,
    user: &str,
    other_org: &str,
    other_user: &str,
    local: EngineProfile,
    synced: EngineProfile,
    other: EngineProfile,
)
    requires
        call_ensures(EngineProfile::local, (data_dir, profile_id), local),
        call_ensures(EngineProfile::synced, (data_dir, org, user), synced),
        call_ensures(EngineProfile::synced, (data_dir, other_org, other_user), other),
    ensures
        apart(local.store_dirs(), synced.store_dirs()),
        apart(local.uploads_dirs(), synced.uploads_dirs()),
        sanitized(org@) != sanitized(other_org@) || sanitized(user@) != sanitized(other_user@)
            ==> apart(synced.store_dirs(), other.store_dirs()) && apart(
            synced.uploads_dirs(),
            other.uploads_dirs(),
        ),
{
    reveal_strlit("profiles");
    reveal_strlit("orgs");
    assert("profiles"@.len() != "orgs"@.len());
    assert(local.store_dirs()[0] != synced.store_dirs()[0]);
    assert(local.uploads_dirs()[0] != synced.uploads_dirs()[0]);
    let part: int = if sanitized(org@) != sanitized(other_org@) {
        1
    } else {
        2
    };
    if sanitized(org@) != sanitized(other_org@) || sanitized(user@) != sanitized(other_user@) {
        assert(synced.store_dirs()[part] != other.store_dirs()[part]);
        assert(synced.uploads_dirs()[part] != other.uploads_dirs()[part]);
    }
}

/// The local identity is stable: the id that a creation gives is the one that every
/// later start reads back from the file it left.
pub proof fn local_profile_id_is_stable(
    path: &str,
    created: LocalProfileStep,
    published: Result<String, EngineError>,
    next: LocalProfileStep,
)
    requires
        call_ensures(load_or_create_local_profile_id, (path, ProfileRead::Missing), created),
        call_ensures(
            local_profile_published,
            (path, created->Create_0, ProfilePublish::Linked),
            published,
        ),
        call_ensures(
            load_or_create_local_profile_id,
            (path, ProfileRead::Id(created->Create_0)),
            next,
        ),
    ensures
        published is Ok,
        next is Done && next->Done_0 is Ok,
        next->Done_0->Ok_0@ == published->Ok_0@,
{
}

/// The local profile is stable: once a start has come by the id that the file holds, by
/// reading it, by creating it or by finding that another process created it first,
/// every later start reads the file, writes nothing, and resolves the same profile. Its
/// user is the text of that id, its organization is the local one, and its directories
/// are those of the local profile.
pub proof fn a_local_profile_is_stable(
    data_dir: &str,
    path: &str,
    held: u128,
    drawn: u128,
    first_id: String,
    next: LocalProfileStep,
    first: EngineProfile,
    second: EngineProfile,
)
    requires
        held != 0,
        ({
            ||| call_ensures(
                load_or_create_local_profile_id,
                (path, ProfileRead::Id(held)),
                LocalProfileStep::Done(Ok(first_id)),
            )
            ||| call_ensures(
                local_profile_published,
                (path, held, ProfilePublish::Linked),
                Ok::<String, EngineError>(first_id),
            )
            ||| call_ensures(
                local_profile_published,
                (path, drawn, ProfilePublish::AlreadyExists(ProfileRead::Id(held))),
                Ok::<String, EngineError>(first_id),
            )
        }),
        call_ensures(EngineProfile::local, (data_dir, first_id), first),
        call_ensures(load_or_create_local_profile_id, (path, ProfileRead::Id(held)), next),
        next is Done && next->Done_0 is Ok ==> call_ensures(
            EngineProfile::local,
            (data_dir, next->Done_0->Ok_0),
            second,
        ),
    ensures
        next is Done && next->Done_0 is Ok,
        first.user() == uuid_chars(held),
        second.user() == first.user(),
        first.spec_scope() == ProfileScope::Local && second.spec_scope() == ProfileScope::Local,
        first.organization() == "local"@ && second.organization() == "local"@,
        first.device_dir() == data_dir@ && second.device_dir() == data_dir@,
        first.store_dirs() == seq!["profiles"@, "local"@],
        second.store_dirs() == first.store_dirs(),
        first.uploads_dirs() == seq!["profiles"@, "local"@, "uploads"@],
        second.uploads_dirs() == first.uploads_dirs(),
{
    assert(first.uploads_dirs() =~= seq!["profiles"@, "local"@, "uploads"@]);
}

/// Local profiles of different ids have different users, and none of them is the
/// development user.
pub proof fn local_profiles_of_different_ids_differ(
    data_dir: &str,
    other_dir: &str,
    id: u128,
    other_id: u128,
    user: String,
    other_user: String,
    profile: EngineProfile,
    other: EngineProfile,
)
    requires
        id != other_id,
        user@ == uuid_chars(id),
        other_user@ == uuid_chars(other_id),
        call_ensures(EngineProfile::local, (data_dir, user), profile),
        call_ensures(EngineProfile::local, (other_dir, other_user), other),
    ensures
        profile.user() != other.user(),
        profile.user() != "dev-user"@,
{
    if profile.user() == other.user() {
        uuid_texts_tell_ids_apart(id, other_id);
    }
    reveal_strlit("dev-user");
    uuid_alphabet(id);
}

} // verus!
