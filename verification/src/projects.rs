use vstd::prelude::*;
use crate::fields::{trim, trim_str};
use crate::text::{char_uppercase, chars_of, same_text, string_of_chars, uppercase_of};

verus! {

/// The characters that separate the words of a project key.
pub open spec fn is_key_separator(c: char) -> bool {
    c == '-' || c == '_'
}

/// The pieces of `s` between separators, empty pieces included.
pub open spec fn split_pieces(s: Seq<char>) -> Seq<Seq<char>>
    decreases s.len(),
{
    if s.len() == 0 {
        seq![Seq::<char>::empty()]
    } else {
        let pieces = split_pieces(s.drop_last());
        if is_key_separator(s.last()) {
            pieces.push(Seq::<char>::empty())
        } else {
            pieces.update(pieces.len() - 1, pieces.last().push(s.last()))
        }
    }
}

/// Whether a piece is a word, that is, not empty.
pub open spec fn is_word(w: Seq<char>) -> bool {
    w.len() > 0
}

/// A word with its first character mapped to upper case.
pub open spec fn capitalize(w: Seq<char>) -> Seq<char> {
    if w.len() == 0 {
        w
    } else {
        char_uppercase(w[0]) + w.drop_first()
    }
}

/// The words joined by single spaces.
pub open spec fn join_words(ws: Seq<Seq<char>>) -> Seq<char>
    decreases ws.len(),
{
    if ws.len() == 0 {
        Seq::<char>::empty()
    } else if ws.len() == 1 {
        ws[0]
    } else {
        join_words(ws.drop_last()) + " "@ + ws.last()
    }
}

/// The display name that a project created from a key gets: the words of the
/// key, split at `-` and `_`, each capitalised, joined by spaces.
pub open spec fn display_name_for_key(key: Seq<char>) -> Seq<char> {
    join_words(split_pieces(key).filter(|w: Seq<char>| is_word(w)).map_values(|w: Seq<char>| capitalize(w)))
}

proof fn lemma_pieces_nonempty(s: Seq<char>)
    ensures
        split_pieces(s).len() >= 1,
    decreases s.len(),
{
    if s.len() > 0 {
        lemma_pieces_nonempty(s.drop_last());
    }
}

proof fn lemma_join_push(ws: Seq<Seq<char>>, w: Seq<char>)
    ensures
        join_words(ws.push(w)) == if ws.len() == 0 { w } else { join_words(ws) + " "@ + w },
{
    assert(ws.push(w).drop_last() =~= ws);
}

/// Appends a word, capitalised, to `out`, after a space when `spaced`.
fn push_capitalized(out: &mut Vec<char>, word: &Vec<char>, spaced: bool)
    requires
        word.len() > 0,
    ensures
        final(out)@ == old(out)@ + (if spaced { " "@ } else { Seq::<char>::empty() }) + capitalize(word@),
{
    let ghost start = out@;
    proof {
        reveal_strlit(" ");
    }
    if spaced {
        out.push(' ');
    }
    let ghost spaced_start = out@;
    assert(spaced_start =~= start + (if spaced { " "@ } else { Seq::<char>::empty() }));
    let upper = uppercase_of(word[0]);
    let mut k: usize = 0;
    while k < upper.len()
        invariant
            k <= upper.len(),
            out@ == spaced_start + upper@.take(k as int),
        decreases upper.len() - k,
    {
        out.push(upper[k]);
        proof {
            assert(upper@.take(k + 1) =~= upper@.take(k as int).push(upper@[k as int]));
        }
        k = k + 1;
    }
    assert(upper@.take(upper@.len() as int) =~= upper@);
    let ghost base = out@;
    let mut k: usize = 1;
    while k < word.len()
        invariant
            1 <= k <= word.len(),
            out@ == base + word@.subrange(1, k as int),
        decreases word.len() - k,
    {
        out.push(word[k]);
        proof {
            assert(word@.subrange(1, k + 1) =~= word@.subrange(1, k as int).push(word@[k as int]));
        }
        k = k + 1;
    }
    assert(word@.subrange(1, word@.len() as int) =~= word@.drop_first());
    assert(out@ =~= start + (if spaced { " "@ } else { Seq::<char>::empty() }) + capitalize(word@));
}

/// The display name for a new project named by `key`.
pub fn display_name_for_project_key(key: &str) -> (name: String)
    ensures
        name@ == display_name_for_key(key@),
{
    let chars = chars_of(key);
    let mut out: Vec<char> = Vec::new();
    let mut word: Vec<char> = Vec::new();
    let mut have_words = false;
    let ghost is_w = |w: Seq<char>| is_word(w);
    let ghost cap = |w: Seq<char>| capitalize(w);
    let mut i: usize = 0;
    proof {
        assert(chars@.take(0) =~= Seq::<char>::empty());
        assert(split_pieces(chars@.take(0)).drop_last() =~= Seq::<Seq<char>>::empty());
        assert(Seq::<Seq<char>>::empty().filter(is_w) =~= Seq::<Seq<char>>::empty());
        assert(Seq::<Seq<char>>::empty().map_values(cap) =~= Seq::<Seq<char>>::empty());
    }
    while i < chars.len()
        invariant
            i <= chars.len(),
            chars@ == key@,
            is_w == (|w: Seq<char>| is_word(w)),
            cap == (|w: Seq<char>| capitalize(w)),
            split_pieces(chars@.take(i as int)).len() >= 1,
            word@ == split_pieces(chars@.take(i as int)).last(),
            out@ == join_words(split_pieces(chars@.take(i as int)).drop_last().filter(is_w).map_values(cap)),
            have_words == (split_pieces(chars@.take(i as int)).drop_last().filter(is_w).len() > 0),
        decreases chars.len() - i,
    {
        let c = chars[i];
        let ghost before = chars@.take(i as int);
        let ghost pieces = split_pieces(before);
        proof {
            assert(chars@.take(i + 1).drop_last() =~= before);
            assert(chars@.take(i + 1).last() == c);
        }
        if c == '-' || c == '_' {
            proof {
                let done = pieces.drop_last().filter(is_w);
                assert(pieces.push(Seq::<char>::empty()).drop_last() =~= pieces);
                assert(pieces =~= pieces.drop_last().push(pieces.last()));
                pieces.drop_last().lemma_filter_push(pieces.last(), is_w);
                done.lemma_push_map_commute(cap, pieces.last());
                lemma_join_push(done.map_values(cap), cap(pieces.last()));
            }
            if word.len() > 0 {
                push_capitalized(&mut out, &word, have_words);
                proof {
                    if !have_words {
                        assert(out@ =~= capitalize(word@));
                    }
                }
                have_words = true;
            }
            word = Vec::new();
        } else {
            proof {
                let last = pieces.len() - 1;
                assert(pieces.update(last, pieces.last().push(c)).drop_last() =~= pieces.drop_last());
            }
            word.push(c);
        }
        i = i + 1;
    }
    let ghost pieces = split_pieces(chars@);
    proof {
        assert(chars@.take(chars@.len() as int) =~= chars@);
        assert(pieces =~= pieces.drop_last().push(pieces.last()));
        let done = pieces.drop_last().filter(is_w);
        pieces.drop_last().lemma_filter_push(pieces.last(), is_w);
        done.lemma_push_map_commute(cap, pieces.last());
        lemma_join_push(done.map_values(cap), cap(pieces.last()));
    }
    if word.len() > 0 {
        push_capitalized(&mut out, &word, have_words);
        proof {
            if !have_words {
                assert(out@ =~= capitalize(word@));
            }
        }
    }
    string_of_chars(&out)
}

} // verus!

verus! {

/// What the intent logic needs to know of an existing project.
#[derive(Clone, Debug)]
pub struct ProjectSummary {
    pub project_key: String,
    pub archived: bool,
}

/// The settings of a project to be created or updated.
#[derive(Clone, Debug)]
pub struct ProjectSettings {
    pub project_key: String,
    pub display_name: String,
    pub default_workdir: String,
    pub default_worktree_root: String,
    pub default_role_id: Option<String>,
    pub default_model: String,
}

/// What to do with the project named in a session request.
#[derive(Clone, Debug)]
pub enum ProjectIntentPlan {
    /// The session belongs to no project.
    Unassigned,
    /// The session belongs to an existing, active project with this key.
    UseExisting(String),
    /// The project must first be created with these settings; the session then belongs to it.
    CreateThenUse(ProjectSettings),
}

/// The intents that mean "no project".
pub open spec fn is_unassigned_intent(intent: Seq<char>) -> bool {
    intent == "__unassigned__"@ || intent == "unassigned"@
}

/// Whether a project intent means "no project": the caller needs no project
/// list to decide it.
pub fn is_unassigned_project_intent(intent: &str) -> (b: bool)
    ensures
        b == is_unassigned_intent(intent@),
{
    same_text(intent, "__unassigned__") || same_text(intent, "unassigned")
}

/// The first project in the list with the given key is not archived.
pub open spec fn first_with_key_is_active(projects: Seq<ProjectSummary>, key: Seq<char>) -> bool {
    exists|j: int|
        0 <= j < projects.len() && #[trigger] projects[j].project_key@ == key && !projects[j].archived
            && forall|k: int| 0 <= k < j ==> projects[k].project_key@ != key
}

/// The model that projects created from a session request default to.
pub open spec fn implicit_project_model() -> Seq<char> {
    "gpt-5.4-mini"@
}

/// The settings of a project created implicitly from a session request.
pub open spec fn implicit_project_holds(p: ProjectSettings, key: Seq<char>) -> bool {
    &&& p.project_key@ == key
    &&& p.display_name@ == display_name_for_key(key)
    &&& p.default_workdir@ == "."@
    &&& p.default_worktree_root@ == "."@
    &&& p.default_role_id is None
    &&& p.default_model@ == implicit_project_model()
}

/// Decides what the project intent of a session request means, given the
/// projects that exist: no project for the unassigned intents, the named
/// project when the first project with that key is active, else a new project
/// with that key (which the caller creates before using it).
pub fn plan_project_from_intent(intent: &str, projects: &Vec<ProjectSummary>) -> (plan: ProjectIntentPlan)
    ensures
        is_unassigned_intent(intent@) ==> plan is Unassigned,
        !is_unassigned_intent(intent@) && first_with_key_is_active(projects@, intent@) ==>
            (plan matches ProjectIntentPlan::UseExisting(k) && k@ == intent@),
        !is_unassigned_intent(intent@) && !first_with_key_is_active(projects@, intent@) ==>
            (plan matches ProjectIntentPlan::CreateThenUse(p) && implicit_project_holds(p, intent@)),
{
    if is_unassigned_project_intent(intent) {
        return ProjectIntentPlan::Unassigned;
    }
    let mut j: usize = 0;
    while j < projects.len()
        invariant
            j <= projects.len(),
            !is_unassigned_intent(intent@),
            forall|k: int| 0 <= k < j ==> (#[trigger] projects@[k]).project_key@ != intent@,
        decreases projects.len() - j,
    {
        if same_text(projects[j].project_key.as_str(), intent) {
            if !projects[j].archived {
                assert(projects@[j as int].project_key@ == intent@);
                return ProjectIntentPlan::UseExisting(String::from_str(intent));
            }
            proof {
                if first_with_key_is_active(projects@, intent@) {
                    let m = choose|m: int|
                        0 <= m < projects@.len() && #[trigger] projects@[m].project_key@ == intent@
                            && !projects@[m].archived
                            && forall|k: int| 0 <= k < m ==> projects@[k].project_key@ != intent@;
                    if m > j {
                        assert(projects@[j as int].project_key@ == intent@);
                    }
                    assert(false);
                }
            }
            return ProjectIntentPlan::CreateThenUse(implicit_project(intent));
        }
        j = j + 1;
    }
    ProjectIntentPlan::CreateThenUse(implicit_project(intent))
}

/// The settings of the project that a session request creates implicitly.
fn implicit_project(key: &str) -> (p: ProjectSettings)
    ensures
        implicit_project_holds(p, key@),
{
    ProjectSettings {
        project_key: String::from_str(key),
        display_name: display_name_for_project_key(key),
        default_workdir: String::from_str("."),
        default_worktree_root: String::from_str("."),
        default_role_id: None,
        default_model: String::from_str("gpt-5.4-mini"),
    }
}

} // verus!

verus! {

/// A request to create a project.
#[derive(Clone, Debug)]
pub struct CreateProjectRequest {
    pub project_key: String,
    pub display_name: String,
    pub default_workdir: String,
    pub default_worktree_root: String,
    pub default_role_id: Option<String>,
    pub default_model: String,
}

/// A request to change the settings of an existing project.
#[derive(Clone, Debug)]
pub struct ProjectSettingsRequest {
    pub display_name: String,
    pub default_workdir: String,
    pub default_worktree_root: String,
    pub default_role_id: Option<String>,
    pub default_model: String,
}

fn trimmed(s: &String) -> (t: String)
    ensures
        t@ == trim(s@),
{
    String::from_str(trim_str(s.as_str()))
}

/// The optional role id, as given (it is not trimmed).
fn copy_opt(s: &Option<String>) -> (t: Option<String>)
    ensures
        crate::fields::opt_string_view(t) == crate::fields::opt_string_view(*s),
{
    match s {
        Some(v) => Some(String::from_str(v.as_str())),
        None => None,
    }
}

/// The settings of a project to create: every text field trimmed, the default
/// role id as given.
pub fn normalize_new_project(request: &CreateProjectRequest) -> (p: ProjectSettings)
    ensures
        p.project_key@ == trim(request.project_key@),
        p.display_name@ == trim(request.display_name@),
        p.default_workdir@ == trim(request.default_workdir@),
        p.default_worktree_root@ == trim(request.default_worktree_root@),
        crate::fields::opt_string_view(p.default_role_id) == crate::fields::opt_string_view(request.default_role_id),
        p.default_model@ == trim(request.default_model@),
{
    ProjectSettings {
        project_key: trimmed(&request.project_key),
        display_name: trimmed(&request.display_name),
        default_workdir: trimmed(&request.default_workdir),
        default_worktree_root: trimmed(&request.default_worktree_root),
        default_role_id: copy_opt(&request.default_role_id),
        default_model: trimmed(&request.default_model),
    }
}

/// The new settings of the project named by `project_key` in the route: every
/// text field trimmed, the key too, the default role id as given.
pub fn normalize_project_update(project_key: &str, request: &ProjectSettingsRequest) -> (p: ProjectSettings)
    ensures
        p.project_key@ == trim(project_key@),
        p.display_name@ == trim(request.display_name@),
        p.default_workdir@ == trim(request.default_workdir@),
        p.default_worktree_root@ == trim(request.default_worktree_root@),
        crate::fields::opt_string_view(p.default_role_id) == crate::fields::opt_string_view(request.default_role_id),
        p.default_model@ == trim(request.default_model@),
{
    ProjectSettings {
        project_key: String::from_str(trim_str(project_key)),
        display_name: trimmed(&request.display_name),
        default_workdir: trimmed(&request.default_workdir),
        default_worktree_root: trimmed(&request.default_worktree_root),
        default_role_id: copy_opt(&request.default_role_id),
        default_model: trimmed(&request.default_model),
    }
}

} // verus!
