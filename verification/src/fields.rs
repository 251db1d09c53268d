use vstd::prelude::*;
use crate::errors::{DetailsView, answer, ApiError, ApiErrorView, ErrorKind};

verus! {

/// The characters with the Unicode `White_Space` property.
pub open spec fn is_white_space(c: char) -> bool {
    let u = c as u32;
    ||| 0x09 <= u <= 0x0D
    ||| u == 0x20
    ||| u == 0x85
    ||| u == 0xA0
    ||| u == 0x1680
    ||| 0x2000 <= u <= 0x200A
    ||| u == 0x2028
    ||| u == 0x2029
    ||| u == 0x202F
    ||| u == 0x205F
    ||| u == 0x3000
}

/// `s` without its leading white space.
pub open spec fn trim_start(s: Seq<char>) -> Seq<char>
    decreases s.len(),
{
    if s.len() > 0 && is_white_space(s[0]) {
        trim_start(s.drop_first())
    } else {
        s
    }
}

/// `s` without its trailing white space.
pub open spec fn trim_end(s: Seq<char>) -> Seq<char>
    decreases s.len(),
{
    if s.len() > 0 && is_white_space(s.last()) {
        trim_end(s.drop_last())
    } else {
        s
    }
}

/// `s` without its leading and trailing white space.
pub open spec fn trim(s: Seq<char>) -> Seq<char> {
    trim_end(trim_start(s))
}

/// `str::trim`: the slice of `s` without leading and trailing characters that
/// have the Unicode `White_Space` property.
#[verifier::external_body]
pub(crate) fn trim_str<'a>(s: &'a str) -> (t: &'a str)
    ensures
        t@ == trim(s@),
{
    s.trim()
}

/// The view of an optional string slice.
pub open spec fn opt_view(value: Option<&str>) -> Option<Seq<char>> {
    match value {
        Some(v) => Some(v@),
        None => None,
    }
}

/// The view of an optional owned string.
pub open spec fn opt_string_view(value: Option<String>) -> Option<Seq<char>> {
    match value {
        Some(v) => Some(v@),
        None => None,
    }
}

/// The value that a required field yields: its trimmed text, if that is not empty.
pub open spec fn required_value(value: Option<Seq<char>>) -> Option<Seq<char>> {
    match value {
        Some(v) => if trim(v).len() > 0 { Some(trim(v)) } else { None },
        None => None,
    }
}

/// The message of the error about a missing required field.
pub open spec fn missing_field_message(name: Seq<char>) -> Seq<char> {
    "create session requires "@ + name
}

/// The answer to a request that lacks the required field `name`.
pub open spec fn missing_field_answer(name: Seq<char>) -> ApiErrorView {
    answer(ErrorKind::BadRequest, missing_field_message(name), DetailsView::Empty)
}

/// A required text field of a session request: its trimmed value, or a
/// bad-request error naming the field when it is absent or blank.
pub fn required_create_session_field<'a>(value: Option<&'a str>, name: &str) -> (r: Result<&'a str, ApiError>)
    ensures
        match required_value(opt_view(value)) {
            Some(t) => r matches Ok(v) && v@ == t,
            None => r matches Err(e) && e@ == missing_field_answer(name@),
        },
{
    match value {
        Some(v) => {
            let t = trim_str(v);
            if t.unicode_len() > 0 {
                return Ok(t);
            }
        },
        None => {},
    }
    Err(ApiError::bad_request(String::from_str("create session requires ").concat(name)))
}

} // verus!

verus! {

/// The name of the first field, in the order given, whose value is absent or blank.
pub open spec fn first_missing(fields: Seq<(Seq<char>, Option<Seq<char>>)>) -> Option<Seq<char>>
    decreases fields.len(),
{
    if fields.len() == 0 {
        None
    } else if required_value(fields[0].1) is None {
        Some(fields[0].0)
    } else {
        first_missing(fields.drop_first())
    }
}

/// A request to create a session; every field is required.
#[derive(Clone, Debug)]
pub struct CreateSessionRequest {
    pub role: Option<String>,
    pub project: Option<String>,
    pub model: Option<String>,
    pub workdir: Option<String>,
    pub worktree_root: Option<String>,
    pub title: Option<String>,
    pub name: Option<String>,
}

/// A request to change the settings of a session; every text field is required.
#[derive(Clone, Debug)]
pub struct UpdateSessionSettingsRequest {
    pub project: String,
    pub role: String,
    pub model: String,
    pub workdir: String,
    pub worktree_root: String,
    pub title: String,
    pub name: String,
    pub is_tracked: bool,
}

/// The trimmed settings that a valid session request carries.
#[derive(Clone, Debug)]
pub struct SessionSettings {
    pub role_id: String,
    pub project_intent: String,
    pub model: String,
    pub workdir: String,
    pub worktree_root: String,
    pub title: String,
    pub name: String,
}

impl CreateSessionRequest {
    /// The fields in the order in which they are checked.
    pub open spec fn checked_fields(self) -> Seq<(Seq<char>, Option<Seq<char>>)> {
        seq![
            ("role"@, opt_string_view(self.role)),
            ("project"@, opt_string_view(self.project)),
            ("model"@, opt_string_view(self.model)),
            ("workdir"@, opt_string_view(self.workdir)),
            ("worktreeRoot"@, opt_string_view(self.worktree_root)),
            ("title"@, opt_string_view(self.title)),
            ("name"@, opt_string_view(self.name)),
        ]
    }
}

impl UpdateSessionSettingsRequest {
    /// The fields in the order in which they are checked.
    pub open spec fn checked_fields(self) -> Seq<(Seq<char>, Option<Seq<char>>)> {
        seq![
            ("project"@, Some(self.project@)),
            ("role"@, Some(self.role@)),
            ("model"@, Some(self.model@)),
            ("workdir"@, Some(self.workdir@)),
            ("worktreeRoot"@, Some(self.worktree_root@)),
            ("title"@, Some(self.title@)),
            ("name"@, Some(self.name@)),
        ]
    }
}

/// The settings hold the trimmed values of the role, project, model, workdir,
/// worktree root, title and name fields, in that order of `values`.
pub open spec fn settings_hold(s: SessionSettings, values: Seq<Option<Seq<char>>>) -> bool {
    &&& values.len() == 7
    &&& Some(s.role_id@) == required_value(values[0])
    &&& Some(s.project_intent@) == required_value(values[1])
    &&& Some(s.model@) == required_value(values[2])
    &&& Some(s.workdir@) == required_value(values[3])
    &&& Some(s.worktree_root@) == required_value(values[4])
    &&& Some(s.title@) == required_value(values[5])
    &&& Some(s.name@) == required_value(values[6])
}

fn as_opt_str(value: &Option<String>) -> (r: Option<&str>)
    ensures
        opt_view(r) == opt_string_view(*value),
{
    match value {
        Some(s) => Some(s.as_str()),
        None => None,
    }
}

fn required_owned(value: Option<&str>, name: &str) -> (r: Result<String, ApiError>)
    ensures
        match required_value(opt_view(value)) {
            Some(t) => r matches Ok(v) && v@ == t,
            None => r matches Err(e) && e@ == missing_field_answer(name@),
        },
{
    match required_create_session_field(value, name) {
        Ok(t) => Ok(String::from_str(t)),
        Err(e) => Err(e),
    }
}

/// Checks a create-session request: the first absent or blank field, in the
/// order role, project, model, workdir, worktreeRoot, title, name, is reported;
/// otherwise the trimmed settings are returned.
pub fn validate_create_session(request: &CreateSessionRequest) -> (r: Result<SessionSettings, ApiError>)
    ensures
        match first_missing(request.checked_fields()) {
            Some(name) => r matches Err(e) && e@ == missing_field_answer(name),
            None => r matches Ok(s) && settings_hold(s, seq![
                opt_string_view(request.role), opt_string_view(request.project),
                opt_string_view(request.model), opt_string_view(request.workdir),
                opt_string_view(request.worktree_root), opt_string_view(request.title),
                opt_string_view(request.name),
            ]),
        },
        r is Ok <==> ({
            &&& request.role matches Some(v) && trim(v@).len() > 0
            &&& request.project matches Some(v) && trim(v@).len() > 0
            &&& request.model matches Some(v) && trim(v@).len() > 0
            &&& request.workdir matches Some(v) && trim(v@).len() > 0
            &&& request.worktree_root matches Some(v) && trim(v@).len() > 0
            &&& request.title matches Some(v) && trim(v@).len() > 0
            &&& request.name matches Some(v) && trim(v@).len() > 0
        }),
        r matches Ok(s) ==> ({
            &&& request.role matches Some(v) && s.role_id@ == trim(v@)
            &&& request.project matches Some(v) && s.project_intent@ == trim(v@)
            &&& request.model matches Some(v) && s.model@ == trim(v@)
            &&& request.workdir matches Some(v) && s.workdir@ == trim(v@)
            &&& request.worktree_root matches Some(v) && s.worktree_root@ == trim(v@)
            &&& request.title matches Some(v) && s.title@ == trim(v@)
            &&& request.name matches Some(v) && s.name@ == trim(v@)
        }),
{
    proof {
        reveal_with_fuel(first_missing, 8);
    }
    let role_id = required_owned(as_opt_str(&request.role), "role")?;
    let project_intent = required_owned(as_opt_str(&request.project), "project")?;
    let model = required_owned(as_opt_str(&request.model), "model")?;
    let workdir = required_owned(as_opt_str(&request.workdir), "workdir")?;
    let worktree_root = required_owned(as_opt_str(&request.worktree_root), "worktreeRoot")?;
    let title = required_owned(as_opt_str(&request.title), "title")?;
    let name = required_owned(as_opt_str(&request.name), "name")?;
    Ok(SessionSettings { role_id, project_intent, model, workdir, worktree_root, title, name })
}

} // verus!

verus! {

/// Checks a session-settings update: the first blank field, in the order
/// project, role, model, workdir, worktreeRoot, title, name, is reported;
/// otherwise the trimmed settings are returned.
pub fn validate_session_settings_update(request: &UpdateSessionSettingsRequest) -> (r: Result<SessionSettings, ApiError>)
    ensures
        match first_missing(request.checked_fields()) {
            Some(name) => r matches Err(e) && e@ == missing_field_answer(name),
            None => r matches Ok(s) && settings_hold(s, seq![
                Some(request.role@), Some(request.project@), Some(request.model@),
                Some(request.workdir@), Some(request.worktree_root@), Some(request.title@),
                Some(request.name@),
            ]),
        },
        r is Ok <==> ({
            &&& trim(request.project@).len() > 0
            &&& trim(request.role@).len() > 0
            &&& trim(request.model@).len() > 0
            &&& trim(request.workdir@).len() > 0
            &&& trim(request.worktree_root@).len() > 0
            &&& trim(request.title@).len() > 0
            &&& trim(request.name@).len() > 0
        }),
        r matches Ok(s) ==> ({
            &&& s.project_intent@ == trim(request.project@)
            &&& s.role_id@ == trim(request.role@)
            &&& s.model@ == trim(request.model@)
            &&& s.workdir@ == trim(request.workdir@)
            &&& s.worktree_root@ == trim(request.worktree_root@)
            &&& s.title@ == trim(request.title@)
            &&& s.name@ == trim(request.name@)
        }),
{
    proof {
        reveal_with_fuel(first_missing, 8);
    }
    let project_intent = required_owned(Some(request.project.as_str()), "project")?;
    let role_id = required_owned(Some(request.role.as_str()), "role")?;
    let model = required_owned(Some(request.model.as_str()), "model")?;
    let workdir = required_owned(Some(request.workdir.as_str()), "workdir")?;
    let worktree_root = required_owned(Some(request.worktree_root.as_str()), "worktreeRoot")?;
    let title = required_owned(Some(request.title.as_str()), "title")?;
    let name = required_owned(Some(request.name.as_str()), "name")?;
    Ok(SessionSettings { role_id, project_intent, model, workdir, worktree_root, title, name })
}

} // verus!

verus! {

proof fn lemma_trim_start(s: Seq<char>)
    ensures
        trim_start(s).len() <= s.len(),
        trim_start(s) == s.subrange(s.len() - trim_start(s).len(), s.len() as int),
        trim_start(s).len() > 0 ==> !is_white_space(trim_start(s)[0]),
    decreases s.len(),
{
    if s.len() > 0 && is_white_space(s[0]) {
        lemma_trim_start(s.drop_first());
        assert(s.drop_first().subrange(s.drop_first().len() - trim_start(s).len(), s.drop_first().len() as int)
            =~= s.subrange(s.len() - trim_start(s).len(), s.len() as int));
    } else {
        assert(s.subrange(0, s.len() as int) =~= s);
    }
}

proof fn lemma_trim_end(s: Seq<char>)
    ensures
        trim_end(s).len() <= s.len(),
        trim_end(s) == s.take(trim_end(s).len() as int),
        trim_end(s).len() > 0 ==> !is_white_space(trim_end(s).last()),
    decreases s.len(),
{
    if s.len() > 0 && is_white_space(s.last()) {
        lemma_trim_end(s.drop_last());
        assert(s.drop_last().take(trim_end(s).len() as int) =~= s.take(trim_end(s).len() as int));
    } else {
        assert(s.take(s.len() as int) =~= s);
    }
}

/// A trimmed text neither starts nor ends with white space, and trimming it
/// again changes nothing: so a required field's value is stable.
pub proof fn law_trim_is_clean_and_idempotent(s: Seq<char>)
    ensures
        trim(s).len() > 0 ==> !is_white_space(trim(s)[0]) && !is_white_space(trim(s).last()),
        trim(trim(s)) == trim(s),
{
    let a = trim_start(s);
    lemma_trim_start(s);
    lemma_trim_end(a);
    let t = trim(s);
    if t.len() > 0 {
        assert(t[0] == a[0]);
    }
    // trimming t again: its start and end are not white space
    assert(trim_start(t) == t);
    lemma_trim_end(t);
    if t.len() > 0 {
        assert(trim_end(t) == t);
    }
}

} // verus!

verus! {

/// The text without leading and trailing white space, as an owned string
/// (used for the keys that routes carry).
pub fn trimmed_text(s: &str) -> (t: String)
    ensures
        t@ == trim(s@),
{
    String::from_str(trim_str(s))
}

} // verus!

verus! {

/// The first missing field is reported exactly when some field is absent or
/// blank, and it is one of the fields that are: no field is reported missing
/// while present, and a request with every field present passes.
pub proof fn law_first_missing_names_a_missing_field(fields: Seq<(Seq<char>, Option<Seq<char>>)>)
    ensures
        first_missing(fields) is None <==> (forall|k: int| 0 <= k < fields.len() ==> #[trigger] required_value(fields[k].1) is Some),
        first_missing(fields) matches Some(name) ==> exists|k: int|
            0 <= k < fields.len() && #[trigger] fields[k].0 == name && required_value(fields[k].1) is None
                && forall|j: int| 0 <= j < k ==> required_value(fields[j].1) is Some,
    decreases fields.len(),
{
    if fields.len() > 0 {
        let rest = fields.drop_first();
        law_first_missing_names_a_missing_field(rest);
        if required_value(fields[0].1) is Some {
            assert forall|k: int| 0 <= k < rest.len() implies rest[k] == fields[k + 1] by {}
            if first_missing(rest) is None {
                assert forall|k: int| 0 <= k < fields.len() implies #[trigger] required_value(fields[k].1) is Some by {
                    if k > 0 {
                        assert(fields[k] == rest[k - 1]);
                    }
                }
            } else {
                let name = first_missing(rest)->0;
                let k = choose|k: int|
                    0 <= k < rest.len() && #[trigger] rest[k].0 == name && required_value(rest[k].1) is None
                        && forall|j: int| 0 <= j < k ==> required_value(rest[j].1) is Some;
                assert(fields[k + 1] == rest[k]);
                assert forall|j: int| 0 <= j < k + 1 implies required_value(fields[j].1) is Some by {
                    if j > 0 {
                        assert(fields[j] == rest[j - 1]);
                    }
                }
                assert(required_value(rest[k].1) is None);
            }
        } else {
            assert(fields[0].0 == first_missing(fields)->0);
        }
    }
}

} // verus!
