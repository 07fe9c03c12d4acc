use vstd::prelude::*;
use crate::folder::ConstantSpecialItemIdList;

verus! {

/// The environment variable that names the user's profile directory.
pub const PROFILE_VARIABLE: &'static str = "USERPROFILE";

/// A query that the caller makes on the resolver's behalf.
#[derive(Debug, Copy, Clone, PartialEq, Eq, Structural)]
pub enum Query {
    /// The Desktop known folder, through `SHGetKnownFolderPath`.
    KnownFolder,
    /// A legacy special folder, through `SHGetSpecialFolderPathW`, with the
    /// flag that lets the call create the folder when it is missing.
    SpecialFolder { folder: ConstantSpecialItemIdList, create_folder: bool },
    /// The value of `PROFILE_VARIABLE`.
    ProfileVariable,
    /// The current user's login name, through `GetUserNameW`.
    UserName,
}

/// What the resolver does after an answer.
#[derive(Debug, Clone)]
pub enum Step {
    /// Make this query and hand its answer back.
    Ask(Query),
    /// The desktop is at this path, in UTF-16 code units.
    Resolved(Vec<u16>),
    /// No query gave a path: the desktop cannot be located.
    Exhausted,
}

/// A `Step` with its path as a sequence.
pub enum StepView {
    Ask(Query),
    Resolved(Seq<u16>),
    Exhausted,
}

impl View for Step {
    type V = StepView;

    open spec fn view(&self) -> StepView {
        match self {
            Step::Ask(q) => StepView::Ask(*q),
            Step::Resolved(p) => StepView::Resolved(p@),
            Step::Exhausted => StepView::Exhausted,
        }
    }
}

/// The path segment "Desktop".
pub open spec fn desktop_segment() -> Seq<u16> {
    seq!['D' as u16, 'e' as u16, 's' as u16, 'k' as u16, 't' as u16, 'o' as u16, 'p' as u16]
}

fn desktop_units() -> (r: Vec<u16>)
    ensures
        r@ == desktop_segment(),
{
    vec!['D' as u16, 'e' as u16, 's' as u16, 'k' as u16, 't' as u16, 'o' as u16, 'p' as u16]
}

/// The prefix "C:/Users/" of the assumed profile directory.
pub open spec fn users_root() -> Seq<u16> {
    seq!['C' as u16, ':' as u16, '/' as u16, 'U' as u16, 's' as u16, 'e' as u16, 'r' as u16, 's' as u16, '/' as u16]
}

fn users_root_units() -> (r: Vec<u16>)
    ensures
        r@ == users_root(),
{
    vec!['C' as u16, ':' as u16, '/' as u16, 'U' as u16, 's' as u16, 'e' as u16, 'r' as u16, 's' as u16, '/' as u16]
}

/// Whether a unit separates path components.
pub open spec fn is_separator(u: u16) -> bool {
    u == '/' as u16 || u == '\\' as u16
}

/// `segment` appended to `base` as one more path component: `separator` goes
/// between them unless `base` already ends with a separator.
pub open spec fn joined(base: Seq<u16>, separator: u16, segment: Seq<u16>) -> Seq<u16> {
    if base.len() > 0 && is_separator(base.last()) {
        base + segment
    } else {
        base + seq![separator] + segment
    }
}

/// The desktop inside the profile directory `profile`.
pub open spec fn profile_desktop(profile: Seq<u16>) -> Seq<u16> {
    joined(profile, '/' as u16, desktop_segment())
}

/// The desktop of the user `name` under the default profile root:
/// "C:/Users/<name>/Desktop".
pub open spec fn user_desktop(name: Seq<u16>) -> Seq<u16> {
    users_root() + name + seq!['/' as u16] + desktop_segment()
}

fn append(v: &mut Vec<u16>, s: &Vec<u16>)
    ensures
        final(v)@ == old(v)@ + s@,
{
    let mut i: usize = 0;
    while i < s.len()
        invariant
            i <= s@.len(),
            v@ =~= old(v)@ + s@.take(i as int),
        decreases s@.len() - i,
    {
        v.push(s[i]);
        i = i + 1;
    }
    assert(s@.take(s@.len() as int) =~= s@);
}

/// `segment` appended to `base` as one more path component, with
/// `separator` between them unless `base` already ends with a separator.
pub fn join_segment(base: Vec<u16>, separator: u16, segment: &Vec<u16>) -> (r: Vec<u16>)
    ensures
        r@ == joined(base@, separator, segment@),
{
    let mut r = base;
    let n = r.len();
    if n == 0 || (r[n - 1] != '/' as u16 && r[n - 1] != '\\' as u16) {
        r.push(separator);
    }
    append(&mut r, segment);
    r
}

/// The desktop inside the profile directory `profile`, with no check that it
/// exists.
pub fn join_desktop(profile: Vec<u16>) -> (r: Vec<u16>)
    ensures
        r@ == profile_desktop(profile@),
{
    let desktop = desktop_units();
    join_segment(profile, '/' as u16, &desktop)
}

/// The desktop of the user `name`, assuming that profiles lie under
/// "C:/Users".
pub fn user_desktop_path(name: &Vec<u16>) -> (r: Vec<u16>)
    ensures
        r@ == user_desktop(name@),
{
    let mut r = users_root_units();
    append(&mut r, name);
    r.push('/' as u16);
    let desktop = desktop_units();
    append(&mut r, &desktop);
    r
}

/// The query made after the known-folder lookup failed: the legacy Desktop
/// folder, which the call must not create.
pub open spec fn special_desktop_query() -> Query {
    Query::SpecialFolder { folder: ConstantSpecialItemIdList::Desktop, create_folder: false }
}

/// What follows the answer `answer` to the query `asked`.
///
/// A found folder ends the search. A profile variable that is set and not
/// empty ends it too, with the desktop inside that directory. A user name
/// ends it with the desktop under the default profile root. Any other answer
/// moves on to the next query, and after the last one the search is
/// exhausted.
pub open spec fn next_step(asked: Query, answer: Option<Seq<u16>>) -> StepView {
    match asked {
        Query::KnownFolder => match answer {
            Some(p) => StepView::Resolved(p),
            None => StepView::Ask(special_desktop_query()),
        },
        Query::SpecialFolder { .. } => match answer {
            Some(p) => StepView::Resolved(p),
            None => StepView::Ask(Query::ProfileVariable),
        },
        Query::ProfileVariable => match answer {
            Some(v) if v.len() > 0 => StepView::Resolved(profile_desktop(v)),
            _ => StepView::Ask(Query::UserName),
        },
        Query::UserName => match answer {
            Some(n) => StepView::Resolved(user_desktop(n)),
            None => StepView::Exhausted,
        },
    }
}

/// An answer with its path as a sequence.
pub open spec fn answer_view(answer: Option<Vec<u16>>) -> Option<Seq<u16>> {
    match answer {
        Some(p) => Some(p@),
        None => None,
    }
}

/// The query that starts the search for the desktop.
pub fn first_query() -> (q: Query)
    ensures
        q == Query::KnownFolder,
{
    Query::KnownFolder
}

/// Decides what follows the answer `answer` to the query `asked`: `None`
/// stands for a failed query or an unset variable.
pub fn advance(asked: Query, answer: Option<Vec<u16>>) -> (r: Step)
    ensures
        r@ == next_step(asked, answer_view(answer)),
{
    match asked {
        Query::KnownFolder => match answer {
            Some(p) => Step::Resolved(p),
            None => Step::Ask(
                Query::SpecialFolder { folder: ConstantSpecialItemIdList::Desktop, create_folder: false },
            ),
        },
        Query::SpecialFolder { .. } => match answer {
            Some(p) => Step::Resolved(p),
            None => Step::Ask(Query::ProfileVariable),
        },
        Query::ProfileVariable => match answer {
            Some(v) => {
                if v.len() > 0 {
                    Step::Resolved(join_desktop(v))
                } else {
                    Step::Ask(Query::UserName)
                }
            },
            None => Step::Ask(Query::UserName),
        },
        Query::UserName => match answer {
            Some(n) => Step::Resolved(user_desktop_path(&n)),
            None => Step::Exhausted,
        },
    }
}

/// The answer to `q` when the known-folder lookup gives `known`, the
/// special-folder lookup `special`, the profile variable `profile` and the
/// user-name query `user`.
pub open spec fn answer_for(
    q: Query,
    known: Option<Seq<u16>>,
    special: Option<Seq<u16>>,
    profile: Option<Seq<u16>>,
    user: Option<Seq<u16>>,
) -> Option<Seq<u16>> {
    match q {
        Query::KnownFolder => known,
        Query::SpecialFolder { .. } => special,
        Query::ProfileVariable => profile,
        Query::UserName => user,
    }
}

/// Where the search stands after at most `fuel` more steps from `step`, each
/// query being answered from the given outcomes.
pub open spec fn run_from(
    step: StepView,
    known: Option<Seq<u16>>,
    special: Option<Seq<u16>>,
    profile: Option<Seq<u16>>,
    user: Option<Seq<u16>>,
    fuel: nat,
) -> StepView
    decreases fuel,
{
    if fuel == 0 {
        step
    } else {
        match step {
            StepView::Ask(q) => run_from(
                next_step(q, answer_for(q, known, special, profile, user)),
                known,
                special,
                profile,
                user,
                (fuel - 1) as nat,
            ),
            _ => step,
        }
    }
}

/// Where a search that starts with `first_query` ends, given the outcome of
/// each query: it makes at most one query of each kind.
pub open spec fn search_outcome(
    known: Option<Seq<u16>>,
    special: Option<Seq<u16>>,
    profile: Option<Seq<u16>>,
    user: Option<Seq<u16>>,
) -> StepView {
    run_from(StepView::Ask(Query::KnownFolder), known, special, profile, user, 4)
}

/// The desktop path that the outcomes give, by priority: the known folder,
/// else the special folder, else the desktop inside a set and non-empty
/// profile directory, else the desktop of the named user under "C:/Users".
pub open spec fn resolution(
    known: Option<Seq<u16>>,
    special: Option<Seq<u16>>,
    profile: Option<Seq<u16>>,
    user: Option<Seq<u16>>,
) -> Option<Seq<u16>> {
    if known is Some {
        known
    } else if special is Some {
        special
    } else if profile is Some && profile->0.len() > 0 {
        Some(profile_desktop(profile->0))
    } else if user is Some {
        Some(user_desktop(user->0))
    } else {
        None
    }
}

/// The search ends with the path that the priority order gives, and is
/// exhausted exactly when no outcome gives one.
pub proof fn lemma_search_follows_priority(
    known: Option<Seq<u16>>,
    special: Option<Seq<u16>>,
    profile: Option<Seq<u16>>,
    user: Option<Seq<u16>>,
)
    ensures
        search_outcome(known, special, profile, user) == match resolution(
            known,
            special,
            profile,
            user,
        ) {
            Some(p) => StepView::Resolved(p),
            None => StepView::Exhausted,
        },
{
    reveal_with_fuel(run_from, 5);
}

/// A found known folder is the result as it stands, whatever the later
/// queries would have given, and no further query is made.
pub proof fn lemma_known_folder_wins(
    p: Seq<u16>,
    special: Option<Seq<u16>>,
    profile: Option<Seq<u16>>,
    user: Option<Seq<u16>>,
)
    ensures
        next_step(Query::KnownFolder, Some(p)) == StepView::Resolved(p),
        search_outcome(Some(p), special, profile, user) == StepView::Resolved(p),
{
    reveal_with_fuel(run_from, 2);
}

/// When the known folder is not found, the legacy Desktop folder is asked
/// for without leave to create it, and a path it gives is the result.
pub proof fn lemma_special_folder_follows(
    p: Seq<u16>,
    profile: Option<Seq<u16>>,
    user: Option<Seq<u16>>,
)
    ensures
        next_step(Query::KnownFolder, None) == StepView::Ask(special_desktop_query()),
        special_desktop_query() == (Query::SpecialFolder {
            folder: ConstantSpecialItemIdList::Desktop,
            create_folder: false,
        }),
        search_outcome(None, Some(p), profile, user) == StepView::Resolved(p),
{
    reveal_with_fuel(run_from, 3);
}

/// When neither folder lookup gives a path and the profile variable holds a
/// directory, the result is "Desktop" joined to it, unchecked.
pub proof fn lemma_profile_fallback(profile: Seq<u16>, user: Option<Seq<u16>>)
    requires
        profile.len() > 0,
    ensures
        search_outcome(None, None, Some(profile), user) == StepView::Resolved(
            profile_desktop(profile),
        ),
        !is_separator(profile.last()) ==> profile_desktop(profile) == profile + seq!['/' as u16]
            + desktop_segment(),
{
    reveal_with_fuel(run_from, 4);
}

/// When neither folder lookup gives a path and the profile variable is unset
/// or empty, a user name `name` gives "C:/Users/<name>/Desktop".
pub proof fn lemma_user_name_fallback(profile: Option<Seq<u16>>, name: Seq<u16>)
    requires
        profile is None || profile->0.len() == 0,
    ensures
        search_outcome(None, None, profile, Some(name)) == StepView::Resolved(user_desktop(name)),
{
    reveal_with_fuel(run_from, 5);
}

/// When every query fails, the search is exhausted and gives no path.
pub proof fn lemma_all_failed_is_exhausted(profile: Option<Seq<u16>>)
    requires
        profile is None || profile->0.len() == 0,
    ensures
        search_outcome(None, None, profile, None) == StepView::Exhausted,
        resolution(None, None, profile, None) is None,
{
    reveal_with_fuel(run_from, 5);
}

} // verus!
