//! Local accounts for users of the New API account service: the errors the
//! routes answer with, and the table of local user rows with the row kept
//! per external user.

use vstd::prelude::*;
use crate::newapi::ExternalIdentity;
use crate::fields::opt_view;

verus! {

/// The kinds of error a route answers with.
pub enum ErrorKind {
    Internal,
    LoginFail,
    MalformedRequest,
    Unauthorized,
    ApiFail,
    ResourceNotFound,
}

/// A route's error: its kind and the reason given to the client.
pub struct ApiError {
    pub error: ErrorKind,
    pub reason: String,
}

/// An error of the given kind with a literal reason.
pub fn api_error(error: ErrorKind, reason: &str) -> (r: ApiError)
    ensures
        r.error == error,
        r.reason@ == reason@,
{
    ApiError { error, reason: String::from_str(reason) }
}

/// A user's interface preferences.
pub struct UserPreference {
    pub theme: Option<String>,
    pub locale: Option<String>,
    pub submit_on_enter: Option<bool>,
}

/// A local user row.
pub struct UserRecord {
    pub id: i32,
    pub name: String,
    pub password: String,
    pub preference: UserPreference,
    pub external_user_id: Option<String>,
    pub newapi_api_key: Option<String>,
}

/// A local user row to be inserted; the database assigns its id.
pub struct NewUser {
    pub name: String,
    pub password: String,
    pub preference: UserPreference,
    pub external_user_id: Option<String>,
    pub newapi_api_key: Option<String>,
}

/// What to write for an external user who logged in or registered.
pub enum UserWrite {
    /// The row is already up to date.
    Keep(UserRecord),
    /// The row, with a new name and key, is to be written back.
    Update(UserRecord),
    /// No row has the external id: this one is to be inserted.
    Insert(NewUser),
}

/// The name and key a written row ends up with.
pub open spec fn written_name_and_key(w: UserWrite) -> (Seq<char>, Option<Seq<char>>) {
    match w {
        UserWrite::Keep(u) => (u.name@, opt_view(u.newapi_api_key)),
        UserWrite::Update(u) => (u.name@, opt_view(u.newapi_api_key)),
        UserWrite::Insert(n) => (n.name@, opt_view(n.newapi_api_key)),
    }
}

/// The external id a written row ends up with.
pub open spec fn written_external_id(w: UserWrite) -> Option<Seq<char>> {
    match w {
        UserWrite::Keep(u) => opt_view(u.external_user_id),
        UserWrite::Update(u) => opt_view(u.external_user_id),
        UserWrite::Insert(n) => opt_view(n.external_user_id),
    }
}

/// Whether two optional texts are equal.
pub fn opt_text_eq(a: &Option<String>, b: &Option<String>) -> (r: bool)
    ensures
        r == (opt_view(*a) == opt_view(*b)),
{
    match (a, b) {
        (Some(x), Some(y)) => crate::text::str_eq(x.as_str(), y.as_str()),
        (None, None) => true,
        _ => false,
    }
}

/// The write that brings the local row of an external user up to date.
/// The row is found by the external id; a row whose name and key already
/// match is kept; another has its name and key replaced and keeps its id,
/// password, preferences and external id; without a row a new one is
/// inserted with an empty password, no preferences, the external id, the
/// name and the key.
pub fn plan_external_user_upsert(existing: Option<UserRecord>, identity: ExternalIdentity, api_key: Option<String>) -> (r: UserWrite)
    requires
        existing matches Some(u) ==> opt_view(u.external_user_id) == Some(identity.external_user_id@),
    ensures
        written_name_and_key(r) == (identity.username@, opt_view(api_key)),
        written_external_id(r) == Some(identity.external_user_id@),
        existing matches Some(u) ==> (match r {
            UserWrite::Keep(k) => k == u && u.name@ == identity.username@
                && opt_view(u.newapi_api_key) == opt_view(api_key),
            UserWrite::Update(k) => k.id == u.id && k.password == u.password
                && k.preference == u.preference && k.external_user_id == u.external_user_id
                && !(u.name@ == identity.username@ && opt_view(u.newapi_api_key) == opt_view(api_key)),
            UserWrite::Insert(_) => false,
        }),
        existing is None ==> (r matches UserWrite::Insert(n)
            && n.password@.len() == 0
            && n.preference.theme is None && n.preference.locale is None && n.preference.submit_on_enter is None
            && opt_view(n.external_user_id) == Some(identity.external_user_id@)),
{
    match existing {
        Some(existing) => {
            if crate::text::str_eq(existing.name.as_str(), identity.username.as_str())
                && opt_text_eq(&api_key, &existing.newapi_api_key) {
                return UserWrite::Keep(existing);
            }
            UserWrite::Update(UserRecord {
                id: existing.id,
                name: identity.username,
                password: existing.password,
                preference: existing.preference,
                external_user_id: existing.external_user_id,
                newapi_api_key: api_key,
            })
        },
        None => UserWrite::Insert(NewUser {
            name: identity.username,
            password: String::new(),
            preference: UserPreference { theme: None, locale: None, submit_on_enter: None },
            external_user_id: Some(identity.external_user_id),
            newapi_api_key: api_key,
        }),
    }
}

/// A copy of an optional text.
fn copy_text(o: &Option<String>) -> (r: Option<String>)
    ensures
        r == *o,
{
    match o {
        Some(t) => Some(t.clone()),
        None => None,
    }
}

/// A copy of a user row.
pub fn copy_user(u: &UserRecord) -> (r: UserRecord)
    ensures
        r == *u,
{
    UserRecord {
        id: u.id,
        name: u.name.clone(),
        password: u.password.clone(),
        preference: UserPreference {
            theme: copy_text(&u.preference.theme),
            locale: copy_text(&u.preference.locale),
            submit_on_enter: u.preference.submit_on_enter,
        },
        external_user_id: copy_text(&u.external_user_id),
        newapi_api_key: copy_text(&u.newapi_api_key),
    }
}

/// Whether the row belongs to this external user.
pub open spec fn has_external_id(u: UserRecord, ext: Seq<char>) -> bool {
    opt_view(u.external_user_id) == Some(ext)
}

/// Whether the row at `k` belongs to this external user.
pub open spec fn external_row_at(table: Seq<UserRecord>, ext: Seq<char>, k: int) -> bool {
    0 <= k < table.len() && has_external_id(table[k], ext)
}

/// Whether some row belongs to this external user.
pub open spec fn has_external_row(table: Seq<UserRecord>, ext: Seq<char>) -> bool {
    exists|k: int| external_row_at(table, ext, k)
}

/// At most one row belongs to this external user.
pub open spec fn at_most_one_external_row(table: Seq<UserRecord>, ext: Seq<char>) -> bool {
    forall|i: int, j: int| external_row_at(table, ext, i) && external_row_at(table, ext, j) ==> i == j
}

/// The largest row id of the table, and 0 for a table without rows or
/// with only negative ids.
pub open spec fn max_row_id(table: Seq<UserRecord>) -> int
    decreases table.len(),
{
    if table.len() == 0 {
        0
    } else {
        let m = max_row_id(table.drop_last());
        if table.last().id > m { table.last().id as int } else { m }
    }
}

/// What an upsert of an external user leaves in the table: the user's row
/// carries the name and key given; a row that existed keeps its place,
/// id, password and preferences; a new row comes last, with the next id,
/// an empty password and no preferences; every other row is untouched and
/// the user has exactly one row.
pub open spec fn upserted(
    before: Seq<UserRecord>,
    after: Seq<UserRecord>,
    ext: Seq<char>,
    name: Seq<char>,
    key: Option<Seq<char>>,
    m: UserRecord,
) -> bool {
    &&& has_external_id(m, ext)
    &&& m.name@ == name
    &&& opt_view(m.newapi_api_key) == key
    &&& at_most_one_external_row(after, ext)
    &&& forall|k: int| external_row_at(before, ext, k) ==> {
        &&& after == before.update(k, m)
        &&& m.id == before[k].id
        &&& m.password == before[k].password
        &&& m.preference == before[k].preference
    }
    &&& !has_external_row(before, ext) ==> {
        &&& after == before.push(m)
        &&& m.id == max_row_id(before) + 1
        &&& m.password@.len() == 0
        &&& m.preference.theme is None && m.preference.locale is None
            && m.preference.submit_on_enter is None
    }
}

/// Writes the local row of an external user who logged in or registered,
/// in a table of rows: the row with the external id gets the name and key
/// (and is left as it is where they match), or a new row is added with
/// the next id. Where no id is left for a new row, the table is left as it
/// is and the error is internal.
pub fn upsert_external_user(table: &mut Vec<UserRecord>, identity: ExternalIdentity, api_key: Option<String>) -> (r: Result<UserRecord, ApiError>)
    requires
        at_most_one_external_row(old(table)@, identity.external_user_id@),
    ensures
        r is Err <==> (!has_external_row(old(table)@, identity.external_user_id@)
            && max_row_id(old(table)@) == i32::MAX),
        r matches Err(e) ==> e.error is Internal && final(table)@ == old(table)@,
        r matches Ok(m) ==> upserted(old(table)@, final(table)@, identity.external_user_id@,
            identity.username@, opt_view(api_key), m),
{
    let ghost before = table@;
    let ghost ext = identity.external_user_id@;
    let mut found: Option<usize> = None;
    let mut max_id: i32 = 0;
    let mut i: usize = 0;
    while i < table.len()
        invariant
            table@ == before,
            ext == identity.external_user_id@,
            0 <= i <= before.len(),
            max_id as int == max_row_id(before.take(i as int)),
            found matches Some(k) ==> k < i && external_row_at(before, ext, k as int),
            found is None ==> forall|j: int| 0 <= j < i ==> !has_external_id(#[trigger] before[j], ext),
        decreases before.len() - i,
    {
        proof {
            assert(before.take(i as int + 1).drop_last() =~= before.take(i as int));
        }
        let row = &table[i];
        if row.id > max_id {
            max_id = row.id;
        }
        let matches = match &row.external_user_id {
            Some(x) => crate::text::str_eq(x.as_str(), identity.external_user_id.as_str()),
            None => false,
        };
        if matches && found.is_none() {
            found = Some(i);
        }
        i = i + 1;
    }
    proof {
        assert(before.take(before.len() as int) =~= before);
    }
    match found {
        Some(k) => {
            let existing = copy_user(&table[k]);
            let m = match plan_external_user_upsert(Some(existing), identity, api_key) {
                UserWrite::Keep(u) => u,
                UserWrite::Update(u) => u,
                UserWrite::Insert(n) => {
                    assert(false);
                    return Err(ApiError { error: ErrorKind::Internal, reason: String::new() });
                },
            };
            table[k] = copy_user(&m);
            proof {
                assert(table@ =~= before.update(k as int, m));
                assert forall|a: int, b: int|
                    external_row_at(table@, ext, a) && external_row_at(table@, ext, b) implies a == b by {
                    if a != k as int {
                        assert(external_row_at(before, ext, a));
                    }
                    if b != k as int {
                        assert(external_row_at(before, ext, b));
                    }
                }
            }
            Ok(m)
        },
        None => {
            if max_id == i32::MAX {
                return Err(api_error(ErrorKind::Internal, "no user id is left for a new user"));
            }
            let n = match plan_external_user_upsert(None, identity, api_key) {
                UserWrite::Insert(n) => n,
                _ => {
                    assert(false);
                    return Err(ApiError { error: ErrorKind::Internal, reason: String::new() });
                },
            };
            let m = UserRecord {
                id: max_id + 1,
                name: n.name,
                password: n.password,
                preference: n.preference,
                external_user_id: n.external_user_id,
                newapi_api_key: n.newapi_api_key,
            };
            table.push(copy_user(&m));
            proof {
                assert(table@ =~= before.push(m));
                assert forall|a: int, b: int|
                    external_row_at(table@, ext, a) && external_row_at(table@, ext, b) implies a == b by {
                    if a < before.len() {
                        assert(!has_external_id(before[a], ext));
                    }
                    if b < before.len() {
                        assert(!has_external_id(before[b], ext));
                    }
                }
            }
            Ok(m)
        },
    }
}

/// Whether a row is the administrator seeded for local logins: named
/// `admin` and tied to no external user.
pub fn is_seeded_admin(user: &UserRecord) -> (r: bool)
    ensures
        r == is_seeded_admin_row(*user),
{
    user.external_user_id.is_none() && crate::text::str_eq(user.name.as_str(), "admin")
}

/// The row is the seeded administrator: named `admin` and tied to no
/// external user.
pub open spec fn is_seeded_admin_row(u: UserRecord) -> bool {
    u.external_user_id is None && u.name@ == "admin"@
}

/// `after` is `before` without its first seeded administrator row, or
/// `before` itself where it has none.
pub open spec fn seeded_admin_removed(before: Seq<UserRecord>, after: Seq<UserRecord>) -> bool {
    &&& (forall|k: int| 0 <= k < before.len() ==> !is_seeded_admin_row(#[trigger] before[k])) ==> after == before
    &&& forall|k: int| 0 <= k < before.len() && is_seeded_admin_row(#[trigger] before[k])
        && (forall|j: int| 0 <= j < k ==> !is_seeded_admin_row(before[j])) ==> after == before.remove(k)
}

/// The number of rows tied to no external user.
pub open spec fn unmapped_count(table: Seq<UserRecord>) -> nat
    decreases table.len(),
{
    if table.len() == 0 {
        0
    } else {
        unmapped_count(table.drop_last()) + if table.last().external_user_id is None { 1nat } else { 0nat }
    }
}

/// The index of the first seeded administrator row, if any.
fn first_seeded_admin(table: &Vec<UserRecord>) -> (r: Option<usize>)
    ensures
        r is None ==> forall|k: int| 0 <= k < table@.len() ==> !is_seeded_admin_row(#[trigger] table@[k]),
        r matches Some(k) ==> k < table@.len() && is_seeded_admin_row(table@[k as int])
            && forall|j: int| 0 <= j < k ==> !is_seeded_admin_row(#[trigger] table@[j]),
{
    let mut i: usize = 0;
    while i < table.len()
        invariant
            0 <= i <= table@.len(),
            forall|j: int| 0 <= j < i ==> !is_seeded_admin_row(#[trigger] table@[j]),
        decreases table@.len() - i,
    {
        if is_seeded_admin(&table[i]) {
            return Some(i);
        }
        i = i + 1;
    }
    None
}

/// Removing the first seeded administrator row is the removal the spec
/// describes.
proof fn lemma_first_seeded_admin_removed(before: Seq<UserRecord>, i: int)
    requires
        0 <= i < before.len(),
        is_seeded_admin_row(before[i]),
        forall|j: int| 0 <= j < i ==> !is_seeded_admin_row(#[trigger] before[j]),
    ensures
        seeded_admin_removed(before, before.remove(i)),
{
    assert forall|k: int| 0 <= k < before.len() && is_seeded_admin_row(#[trigger] before[k])
        && (forall|j: int| 0 <= j < k ==> !is_seeded_admin_row(before[j])) implies k == i by {
        if k > i {
            assert(!is_seeded_admin_row(before[i]));
        }
    }
}

/// Removes the seeded administrator, which external auth does not use:
/// the first row named `admin` and tied to no external user, if any.
pub fn remove_seeded_admin(table: &mut Vec<UserRecord>)
    ensures
        seeded_admin_removed(old(table)@, final(table)@),
{
    match first_seeded_admin(table) {
        None => {},
        Some(k) => {
            let ghost before = table@;
            table.remove(k);
            proof {
                lemma_first_seeded_admin_removed(before, k as int);
            }
        },
    }
}

/// Counts the rows tied to no external user.
pub fn count_unmapped(table: &Vec<UserRecord>) -> (r: u64)
    ensures
        r as nat == unmapped_count(table@),
{
    let mut count: usize = 0;
    let mut i: usize = 0;
    while i < table.len()
        invariant
            0 <= i <= table.len(),
            count as nat == unmapped_count(table@.take(i as int)),
            count <= i,
        decreases table.len() - i,
    {
        proof {
            assert(table@.take(i as int + 1).drop_last() =~= table@.take(i as int));
        }
        if table[i].external_user_id.is_none() {
            count = count + 1;
        }
        i = i + 1;
    }
    proof {
        assert(table@.take(table@.len() as int) =~= table@);
    }
    count as u64
}

/// Before starting with external auth, the seeded administrator is removed
/// and every remaining row must be tied to an external user; without
/// external auth the table is left as it is.
pub fn ensure_external_users_mapped(table: &mut Vec<UserRecord>, external_auth_enabled: bool) -> (r: Result<(), String>)
    ensures
        !external_auth_enabled ==> (final(table)@ == old(table)@ && r is Ok),
        external_auth_enabled ==> seeded_admin_removed(old(table)@, final(table)@),
        external_auth_enabled ==> (r is Ok <==> unmapped_count(final(table)@) == 0),
        r matches Err(m) ==> m@ == "external auth is enabled, but "@
            + crate::text::decimal(unmapped_count(final(table)@))
            + " local users are missing external_user_id mappings"@,
{
    if !external_auth_enabled {
        return Ok(());
    }
    remove_seeded_admin(table);
    let unmapped = count_unmapped(table);
    match unmapped_users_error(true, unmapped) {
        Some(m) => Err(m),
        None => Ok(()),
    }
}

/// The refusal to start with external auth while local rows have no
/// external id (counted after the seeded administrator was removed).
pub fn unmapped_users_error(external_auth_enabled: bool, unmapped_users: u64) -> (r: Option<String>)
    ensures
        !external_auth_enabled || unmapped_users == 0 ==> r is None,
        external_auth_enabled && unmapped_users > 0 ==> (r matches Some(m)
            && m@ == "external auth is enabled, but "@ + crate::text::decimal(unmapped_users as nat)
                + " local users are missing external_user_id mappings"@),
{
    if !external_auth_enabled || unmapped_users == 0 {
        return None;
    }
    let digits = crate::text::u64_to_decimal(unmapped_users);
    let mut m = String::from_str("external auth is enabled, but ");
    m.append(digits.as_str());
    m.append(" local users are missing external_user_id mappings");
    Some(m)
}

} // verus!
