//! The secrets of a connection: which are given, which are cleared, and which
//! are read from where they were saved.
use crate::models;
use crate::models::FileManagerError;
use crate::models::FileSecretUpdates;
use crate::models::SecretUpdate;
use crate::models::TestFileConnectionRequest;
use crate::text_map;
use crate::text_map::TextMap;
use vstd::prelude::*;

verus! {

/// How many kinds of secrets there are.
pub const SECRET_COUNT: usize = 7;

/// What the secrets are called, in their order.
pub open spec fn secret_name(field: int) -> Seq<char> {
    if field == 0 {
        "password"@
    } else if field == 1 {
        "private_key"@
    } else if field == 2 {
        "access_key"@
    } else if field == 3 {
        "secret_key"@
    } else if field == 4 {
        "session_token"@
    } else if field == 5 {
        "bearer_token"@
    } else {
        "delegation_token"@
    }
}

/// What a secret is called.
pub fn secret_key(field: usize) -> (name: &'static str)
    requires
        field < SECRET_COUNT,
    ensures
        name@ == secret_name(field as int),
{
    match field {
        0 => "password",
        1 => "private_key",
        2 => "access_key",
        3 => "secret_key",
        4 => "session_token",
        5 => "bearer_token",
        _ => "delegation_token",
    }
}

/// What happens to a secret.
pub open spec fn update_of(updates: FileSecretUpdates, field: int) -> SecretUpdate {
    if field == 0 {
        updates.password
    } else if field == 1 {
        updates.private_key
    } else if field == 2 {
        updates.access_key
    } else if field == 3 {
        updates.secret_key
    } else if field == 4 {
        updates.session_token
    } else if field == 5 {
        updates.bearer_token
    } else {
        updates.delegation_token
    }
}

fn update_at(updates: &FileSecretUpdates, field: usize) -> (update: &SecretUpdate)
    requires
        field < SECRET_COUNT,
    ensures
        *update == update_of(*updates, field as int),
{
    match field {
        0 => &updates.password,
        1 => &updates.private_key,
        2 => &updates.access_key,
        3 => &updates.secret_key,
        4 => &updates.session_token,
        5 => &updates.bearer_token,
        _ => &updates.delegation_token,
    }
}

/// The secrets that a connection is opened with.
#[derive(Debug)]
pub struct ResolvedSecrets {
    values: TextMap<String>,
}

/// The secret under a name: empty where there is none.
pub open spec fn secret_in(secrets: Map<Seq<char>, Seq<char>>, key: Seq<char>) -> Seq<char> {
    if secrets.contains_key(key) {
        secrets[key]
    } else {
        Seq::empty()
    }
}

impl View for ResolvedSecrets {
    type V = Map<Seq<char>, Seq<char>>;

    closed spec fn view(&self) -> Map<Seq<char>, Seq<char>> {
        text_map::as_texts(self.values.entries())
    }
}

impl Default for ResolvedSecrets {
    /// No secrets.
    fn default() -> (secrets: ResolvedSecrets)
        ensures
            secrets@ == Map::<Seq<char>, Seq<char>>::empty(),
    {
        let values: TextMap<String> = TextMap::new();
        let secrets = ResolvedSecrets { values };
        assert(secrets@ =~= Map::<Seq<char>, Seq<char>>::empty());
        secrets
    }
}

impl ResolvedSecrets {
    /// The secret under a name: empty where there is none.
    pub fn get(&self, key: &'static str) -> (secret: &str)
        ensures
            secret@ == secret_in(self@, key@),
    {
        match self.values.get(key) {
            Some(value) => value.as_str(),
            None => {
                proof {
                    reveal_strlit("");
                    assert(""@ =~= Seq::<char>::empty());
                }
                ""
            },
        }
    }

    fn put(&mut self, key: &'static str, value: &str)
        ensures
            final(self)@ == old(self)@.insert(key@, value@),
    {
        let _before = self.values.insert(key.to_owned(), value.to_owned());
        assert(self@ =~= old(self)@.insert(key@, value@));
    }
}

/// How far the secrets are resolved.
#[verifier::ext_equal]
pub enum SecretStepView {
    Resolved(Map<Seq<char>, Seq<char>>),
    Refused(models::ManagerErrorView),
    Read { field: int, found: Map<Seq<char>, Seq<char>> },
}

/// What a secret that is set to nothing is refused with.
pub open spec fn empty_secret_error() -> models::ManagerErrorView {
    models::configuration_error("A secret value cannot be empty; leave it unchanged or clear it explicitly"@)
}

/// What is reported where a saved secret cannot be read.
pub open spec fn unreadable_secret_error() -> models::ManagerErrorView {
    models::manager_error("storage"@, "Failed to read saved credentials"@)
}

/// How far the secrets are resolved from a field on, without reading a saved
/// one. A secret that is set is taken, one that is cleared is left out, and one
/// that is kept is read where the connection was saved.
pub open spec fn resolved_from(
    request: TestFileConnectionRequest,
    field: int,
    found: Map<Seq<char>, Seq<char>>,
) -> SecretStepView
    decreases SECRET_COUNT - field,
{
    if field >= SECRET_COUNT {
        SecretStepView::Resolved(found)
    } else {
        match update_of(request.secrets, field) {
            SecretUpdate::SetTo(value) => if value@.len() == 0 {
                SecretStepView::Refused(empty_secret_error())
            } else {
                resolved_from(request, field + 1, found.insert(secret_name(field), value@))
            },
            SecretUpdate::Clear => resolved_from(request, field + 1, found),
            SecretUpdate::Keep => if request.id is Some {
                SecretStepView::Read { field, found }
            } else {
                resolved_from(request, field + 1, found)
            },
        }
    }
}

/// A kept secret is due to be read from where the secrets of connections are
/// saved, under [`SavedSecretRead::saved_name`].
#[derive(Debug)]
#[non_exhaustive]
pub struct SavedSecretRead<'a> {
    pub request: &'a TestFileConnectionRequest,
    pub field: usize,
    pub found: ResolvedSecrets,
}

/// A kept secret is due to be read from where file connections saved it
/// themselves, under [`EarlierSecretRead::saved_name`].
#[derive(Debug)]
#[non_exhaustive]
pub struct EarlierSecretRead<'a> {
    pub request: &'a TestFileConnectionRequest,
    pub field: usize,
    pub found: ResolvedSecrets,
    pub saved: Option<String>,
}

/// The secrets are resolved, or refused, or one is to be read.
#[derive(Debug)]
pub enum SecretStep<'a> {
    Resolved(ResolvedSecrets),
    Refused(FileManagerError),
    Read(SavedSecretRead<'a>),
}

/// A saved secret was looked up.
#[derive(Debug)]
pub enum SavedSecretStep<'a> {
    Refused(FileManagerError),
    Read(EarlierSecretRead<'a>),
}

impl<'a> View for SecretStep<'a> {
    type V = SecretStepView;

    open spec fn view(&self) -> SecretStepView {
        match *self {
            SecretStep::Resolved(secrets) => SecretStepView::Resolved(secrets@),
            SecretStep::Refused(error) => SecretStepView::Refused(error@),
            SecretStep::Read(read) => SecretStepView::Read { field: read.field as int, found: read.found@ },
        }
    }
}

impl<'a> SecretStep<'a> {
    /// A read that is due belongs to this request, and is of a secret that the
    /// request keeps.
    pub open spec fn belongs_to(&self, request: TestFileConnectionRequest) -> bool {
        *self matches SecretStep::Read(read) ==> *read.request == request && read.well_formed()
    }
}

fn resolve_from<'a>(
    request: &'a TestFileConnectionRequest,
    first: usize,
    known: ResolvedSecrets,
) -> (step: SecretStep<'a>)
    requires
        first <= SECRET_COUNT,
    ensures
        step@ == resolved_from(*request, first as int, known@),
        step.belongs_to(*request),
{
    let mut field: usize = first;
    let mut found = known;
    while field < SECRET_COUNT
        invariant
            first <= field <= SECRET_COUNT,
            resolved_from(*request, first as int, known@) == resolved_from(*request, field as int, found@),
        decreases SECRET_COUNT - field,
    {
        match update_at(&request.secrets, field) {
            SecretUpdate::SetTo(value) => {
                if value.as_str().unicode_len() == 0 {
                    return SecretStep::Refused(
                        FileManagerError::configuration(
                            "A secret value cannot be empty; leave it unchanged or clear it explicitly",
                        ),
                    );
                }
                found.put(secret_key(field), value.as_str());
            },
            SecretUpdate::Clear => {},
            SecretUpdate::Keep => {
                if request.id.is_some() {
                    return SecretStep::Read(SavedSecretRead { request, field, found });
                }
            },
        }
        field = field + 1;
    }
    SecretStep::Resolved(found)
}

/// Resolves the secrets of a request, up to the first one that is to be read.
pub fn resolve_secrets<'a>(request: &'a TestFileConnectionRequest) -> (step: SecretStep<'a>)
    ensures
        step@ == resolved_from(*request, 0, Map::empty()),
        step.belongs_to(*request),
{
    resolve_from(request, 0, ResolvedSecrets::default())
}

impl<'a> SavedSecretRead<'a> {
    /// The secret is one that the request keeps, of a saved connection.
    pub open spec fn well_formed(&self) -> bool {
        &&& self.field < SECRET_COUNT
        &&& self.request.id is Some
        &&& update_of(self.request.secrets, self.field as int) is Keep
    }

    /// The name that the secret was saved under.
    pub fn saved_name(&self) -> (name: String)
        requires
            self.well_formed(),
        ensures
            name@ == "file."@ + secret_name(self.field as int),
    {
        crate::text::joined2("file.", secret_key(self.field))
    }

    /// What was saved: a secret that cannot be read ends the resolution.
    pub fn looked_up(self, reply: Result<Option<String>, String>) -> (step: SavedSecretStep<'a>)
        requires
            self.well_formed(),
        ensures
            match reply {
                Ok(value) => step matches SavedSecretStep::Read(read) && read.well_formed() && read.request
                    == self.request && read.field == self.field && read.found == self.found && read.saved == value,
                Err(_) => step matches SavedSecretStep::Refused(error) && error@ == unreadable_secret_error(),
            },
    {
        match reply {
            Ok(saved) => SavedSecretStep::Read(
                EarlierSecretRead { request: self.request, field: self.field, found: self.found, saved },
            ),
            Err(_) => SavedSecretStep::Refused(
                FileManagerError::new("storage", "Failed to read saved credentials"),
            ),
        }
    }
}

impl<'a> EarlierSecretRead<'a> {
    /// The secret is one that the request keeps, of a saved connection.
    pub open spec fn well_formed(&self) -> bool {
        &&& self.field < SECRET_COUNT
        &&& self.request.id is Some
        &&& update_of(self.request.secrets, self.field as int) is Keep
    }

    /// The name that the secret was saved under.
    pub fn saved_name(&self) -> (name: &'static str)
        requires
            self.well_formed(),
        ensures
            name@ == secret_name(self.field as int),
    {
        secret_key(self.field)
    }

    /// What was saved earlier: it counts where nothing was saved since. The
    /// resolution goes on with the next secret.
    pub fn looked_up(self, reply: Result<Option<String>, String>) -> (step: SecretStep<'a>)
        requires
            self.well_formed(),
        ensures
            match reply {
                Ok(earlier) => {
                    let value = if self.saved is Some {
                        self.saved
                    } else {
                        earlier
                    };
                    &&& step.belongs_to(*self.request)
                    &&& step@ == resolved_from(
                        *self.request,
                        self.field + 1,
                        (match value {
                            Some(secret) => self.found@.insert(secret_name(self.field as int), secret@),
                            None => self.found@,
                        }),
                    )
                },
                Err(_) => step@ == SecretStepView::Refused(unreadable_secret_error()),
            },
    {
        match reply {
            Ok(earlier) => {
                let mut found = self.found;
                match self.saved {
                    Some(secret) => {
                        found.put(secret_key(self.field), secret.as_str());
                    },
                    None => {
                        match earlier {
                            Some(secret) => {
                                found.put(secret_key(self.field), secret.as_str());
                            },
                            None => {},
                        }
                    },
                }
                resolve_from(self.request, self.field + 1, found)
            },
            Err(_) => SecretStep::Refused(FileManagerError::new("storage", "Failed to read saved credentials")),
        }
    }
}

// Two secrets have two names.
proof fn lemma_names_differ(left: int, right: int)
    requires
        0 <= left < right < SECRET_COUNT,
    ensures
        secret_name(left) != secret_name(right),
{
    reveal_strlit("password");
    reveal_strlit("private_key");
    reveal_strlit("access_key");
    reveal_strlit("secret_key");
    reveal_strlit("session_token");
    reveal_strlit("bearer_token");
    reveal_strlit("delegation_token");
    if secret_name(left) == secret_name(right) {
        assert(secret_name(left)[0] == secret_name(right)[0]);
        assert(secret_name(left)[1] == secret_name(right)[1]);
        assert(secret_name(left)[2] == secret_name(right)[2]);
    }
}

proof fn lemma_given_secrets(request: TestFileConnectionRequest, field: int, found: Map<Seq<char>, Seq<char>>)
    requires
        request.id is None,
        0 <= field <= SECRET_COUNT,
        forall|i: int|
            0 <= i < SECRET_COUNT ==> !(#[trigger] update_of(request.secrets, i) matches SecretUpdate::SetTo(value)
                && value@.len() == 0),
    ensures
        resolved_from(request, field, found) matches SecretStepView::Resolved(secrets) && {
            &&& forall|i: int|
                field <= i < SECRET_COUNT && update_of(request.secrets, i) is SetTo ==> secrets.contains_key(
                    #[trigger] secret_name(i),
                ) && secrets[secret_name(i)] == update_of(request.secrets, i)->0@
            &&& forall|key: Seq<char>|
                (forall|i: int|
                    field <= i < SECRET_COUNT && update_of(request.secrets, i) is SetTo ==> #[trigger] secret_name(i)
                        != key) ==> (#[trigger] secrets.contains_key(key) <==> found.contains_key(key)) && (
                secrets.contains_key(key) ==> secrets[key] == found[key])
        },
    decreases SECRET_COUNT - field,
{
    if field < SECRET_COUNT {
        let update = update_of(request.secrets, field);
        let next = if update is SetTo {
            found.insert(secret_name(field), update->0@)
        } else {
            found
        };
        assert(!(update_of(request.secrets, field) matches SecretUpdate::SetTo(value) && value@.len() == 0));
        lemma_given_secrets(request, field + 1, next);
        let secrets = resolved_from(request, field, found)->Resolved_0;
        assert forall|i: int|
            field <= i < SECRET_COUNT && update_of(request.secrets, i) is SetTo implies secrets.contains_key(
            #[trigger] secret_name(i),
        ) && secrets[secret_name(i)] == update_of(request.secrets, i)->0@ by {
            if i == field {
                assert forall|j: int|
                    field + 1 <= j < SECRET_COUNT && update_of(request.secrets, j) is SetTo implies #[trigger] secret_name(
                    j,
                ) != secret_name(field) by {
                    lemma_names_differ(field, j);
                }
                assert(next.contains_key(secret_name(field)));
                assert(secrets.contains_key(secret_name(field)));
            }
        }
        assert forall|key: Seq<char>|
            (forall|i: int|
                field <= i < SECRET_COUNT && update_of(request.secrets, i) is SetTo ==> #[trigger] secret_name(i)
                    != key) implies (#[trigger] secrets.contains_key(key) <==> found.contains_key(key)) && (
        secrets.contains_key(key) ==> secrets[key] == found[key]) by {
            if update is SetTo {
                assert(secret_name(field) != key);
            }
        }
    }
}

/// A connection that was never saved is opened with the secrets that it is
/// given, and with no others: nothing is read, and each secret that is set has
/// the value that it is set to.
pub proof fn unsaved_connections_take_what_they_are_given(request: TestFileConnectionRequest)
    requires
        request.id is None,
        forall|i: int|
            0 <= i < SECRET_COUNT ==> !(#[trigger] update_of(request.secrets, i) matches SecretUpdate::SetTo(value)
                && value@.len() == 0),
    ensures
        resolved_from(request, 0, Map::empty()) matches SecretStepView::Resolved(secrets) && forall|i: int|
            0 <= i < SECRET_COUNT ==> (match update_of(request.secrets, i) {
                SecretUpdate::SetTo(value) => secrets.contains_key(#[trigger] secret_name(i)) && secrets[secret_name(
                    i,
                )] == value@,
                _ => !secrets.contains_key(secret_name(i)),
            }),
{
    lemma_given_secrets(request, 0, Map::empty());
    let secrets = resolved_from(request, 0, Map::empty())->Resolved_0;
    assert forall|i: int| 0 <= i < SECRET_COUNT implies (match update_of(request.secrets, i) {
        SecretUpdate::SetTo(value) => secrets.contains_key(#[trigger] secret_name(i)) && secrets[secret_name(i)]
            == value@,
        _ => !secrets.contains_key(secret_name(i)),
    }) by {
        if !(update_of(request.secrets, i) is SetTo) {
            assert forall|j: int|
                0 <= j < SECRET_COUNT && update_of(request.secrets, j) is SetTo implies #[trigger] secret_name(j)
                != secret_name(i) by {
                if i < j {
                    lemma_names_differ(i, j);
                } else {
                    lemma_names_differ(j, i);
                }
            }
            assert(!secrets.contains_key(secret_name(i)));
        }
    }
}

/// A secret is kept under the name of the setting that it is given in.
pub proof fn secrets_are_kept_under_their_names(updates: FileSecretUpdates, field: int)
    requires
        0 <= field < SECRET_COUNT,
    ensures
        SECRET_COUNT == 7,
        secret_name(field) == "password"@ ==> update_of(updates, field) == updates.password,
        secret_name(field) == "private_key"@ ==> update_of(updates, field) == updates.private_key,
        secret_name(field) == "access_key"@ ==> update_of(updates, field) == updates.access_key,
        secret_name(field) == "secret_key"@ ==> update_of(updates, field) == updates.secret_key,
        secret_name(field) == "session_token"@ ==> update_of(updates, field) == updates.session_token,
        secret_name(field) == "bearer_token"@ ==> update_of(updates, field) == updates.bearer_token,
        secret_name(field) == "delegation_token"@ ==> update_of(updates, field) == updates.delegation_token,
{
    reveal_strlit("password");
    reveal_strlit("private_key");
    reveal_strlit("access_key");
    reveal_strlit("secret_key");
    reveal_strlit("session_token");
    reveal_strlit("bearer_token");
    reveal_strlit("delegation_token");
    assert("password"@.len() == 8 && "private_key"@.len() == 11 && "access_key"@.len() == 10 && "secret_key"@.len()
        == 10 && "session_token"@.len() == 13 && "bearer_token"@.len() == 12 && "delegation_token"@.len() == 16);
    assert("access_key"@[0] == 'a' && "secret_key"@[0] == 's');
}

/// Every setting that takes a secret has a name to keep it under.
pub proof fn every_secret_has_a_name(name: Seq<char>)
    requires
        name == "password"@ || name == "private_key"@ || name == "access_key"@ || name == "secret_key"@ || name
            == "session_token"@ || name == "bearer_token"@ || name == "delegation_token"@,
    ensures
        exists|field: int| 0 <= field < SECRET_COUNT && #[trigger] secret_name(field) == name,
{
    assert(secret_name(0) == "password"@);
    assert(secret_name(1) == "private_key"@);
    assert(secret_name(2) == "access_key"@);
    assert(secret_name(3) == "secret_key"@);
    assert(secret_name(4) == "session_token"@);
    assert(secret_name(5) == "bearer_token"@);
    assert(secret_name(6) == "delegation_token"@);
}

/// A secret under a name is the one that was put there, and empty where none was.
pub proof fn secrets_are_found_where_they_were_put(
    secrets: Map<Seq<char>, Seq<char>>,
    key: Seq<char>,
    value: Seq<char>,
    other: Seq<char>,
)
    ensures
        secret_in(secrets.insert(key, value), key) == value,
        other != key ==> secret_in(secrets.insert(key, value), other) == secret_in(secrets, other),
        secret_in(Map::empty(), key).len() == 0,
{
}

/// Resolving takes the next secret as it is to be taken: one that is set to nothing
/// is refused, one that is set has its value from then on, one that is cleared is
/// left out, and one of a saved connection that is kept is read.
pub proof fn secrets_are_taken_as_they_are_given(
    request: TestFileConnectionRequest,
    field: int,
    found: Map<Seq<char>, Seq<char>>,
)
    requires
        0 <= field < SECRET_COUNT,
    ensures
        update_of(request.secrets, field) matches SecretUpdate::SetTo(value) ==> (if value@.len() == 0 {
            resolved_from(request, field, found) matches SecretStepView::Refused(error) && error.code
                == "configuration"@ && error.message
                == "A secret value cannot be empty; leave it unchanged or clear it explicitly"@ && error.recovery is None
        } else {
            resolved_from(request, field, found) == resolved_from(
                request,
                field + 1,
                found.insert(secret_name(field), value@),
            )
        }),
        update_of(request.secrets, field) is Clear ==> resolved_from(request, field, found) == resolved_from(
            request,
            field + 1,
            found,
        ),
        update_of(request.secrets, field) is Keep && request.id is Some ==> resolved_from(request, field, found)
            == (SecretStepView::Read { field, found }),
        update_of(request.secrets, field) is Keep && request.id is None ==> resolved_from(request, field, found)
            == resolved_from(request, field + 1, found),
        resolved_from(request, SECRET_COUNT as int, found) == SecretStepView::Resolved(found),
{
}

/// A step of resolving says what it holds: the secrets, the error, or which secret
/// is to be read.
pub proof fn resolving_says_what_it_found(step: SecretStep)
    ensures
        step matches SecretStep::Resolved(secrets) ==> step@ == SecretStepView::Resolved(secrets@),
        step matches SecretStep::Refused(error) ==> step@ == SecretStepView::Refused(error@),
        step matches SecretStep::Read(read) ==> step@ == (SecretStepView::Read {
            field: read.field as int,
            found: read.found@,
        }),
        unreadable_secret_error().code == "storage"@ && unreadable_secret_error().message
            == "Failed to read saved credentials"@ && unreadable_secret_error().recovery is None,
{
}

} // verus!
