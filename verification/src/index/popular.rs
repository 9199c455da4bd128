use vstd::prelude::*;
use crate::status::{ClientError, INTERNAL_SERVER_ERROR};
use crate::keyed::{views, distinct, distinct_ids};

verus! {

broadcast use vstd::seq_lib::group_seq_properties;

/// Something that is ranked by a score.
pub trait Scored {
    spec fn score_spec(&self) -> u32;

    fn score(&self) -> (s: u32)
        ensures
            s == self.score_spec(),
    ;
}

/// Whether an item has score `k`.
pub open spec fn score_is<T: Scored>(k: u32) -> spec_fn(T) -> bool {
    |x: T| x.score_spec() == k
}

/// The items of `s` with score `k`, in their order in `s`.
pub open spec fn with_score<T: Scored>(s: Seq<T>, k: u32) -> Seq<T> {
    s.filter(score_is::<T>(k))
}

/// Higher scores come first.
pub open spec fn sorted_by_score<T: Scored>(s: Seq<T>) -> bool {
    forall|i: int, j: int| 0 <= i < j < s.len() ==> s[i].score_spec() >= s[j].score_spec()
}

/// `r` is `s` ordered by score, highest first, where items of equal score keep
/// the order they had in `s`.
pub open spec fn ranked<T: Scored>(r: Seq<T>, s: Seq<T>) -> bool {
    &&& sorted_by_score(r)
    &&& forall|k: u32| #[trigger] with_score(r, k) == with_score(s, k)
}

proof fn lemma_filter_single<T: Scored>(x: T, k: u32)
    ensures
        with_score(seq![x], k) == (if x.score_spec() == k { seq![x] } else { Seq::<T>::empty() }),
{
    reveal_with_fuel(Seq::filter, 2);
    assert(seq![x].drop_last() =~= Seq::<T>::empty());
}

proof fn lemma_filter_none<T: Scored>(s: Seq<T>, k: u32)
    requires
        forall|i: int| 0 <= i < s.len() ==> s[i].score_spec() != k,
    ensures
        with_score(s, k) == Seq::<T>::empty(),
    decreases s.len(),
{
    reveal(Seq::filter);
    if s.len() > 0 {
        lemma_filter_none(s.drop_last(), k);
    }
}

/// Putting `x` at `p` in a ranked sequence, where everything before `p` has a
/// higher score and nothing from `p` on has a higher score, puts `x` first among
/// the items of its score and leaves the others as they were.
proof fn lemma_insert_ranked<T: Scored>(out: Seq<T>, p: int, x: T, k: u32)
    requires
        0 <= p <= out.len(),
        forall|i: int| 0 <= i < p ==> out[i].score_spec() > x.score_spec(),
        forall|i: int| p <= i < out.len() ==> out[i].score_spec() <= x.score_spec(),
    ensures
        with_score(out.insert(p, x), k) == with_score(seq![x], k) + with_score(out, k),
{
    let a = out.take(p);
    let b = out.skip(p);
    assert(out =~= a + b);
    assert(out.insert(p, x) =~= a + (seq![x] + b));
    Seq::filter_distributes_over_add(a, b, score_is::<T>(k));
    Seq::filter_distributes_over_add(a, seq![x] + b, score_is::<T>(k));
    Seq::filter_distributes_over_add(seq![x], b, score_is::<T>(k));
    lemma_filter_single(x, k);
    if x.score_spec() == k {
        lemma_filter_none(a, k);
        assert(with_score(a, k) == Seq::<T>::empty());
        assert(with_score(out, k) =~= with_score(b, k));
        assert(with_score(out.insert(p, x), k) =~= with_score(seq![x], k) + with_score(b, k));
    } else {
        assert(with_score(out.insert(p, x), k) =~= with_score(a, k) + with_score(b, k));
        assert(with_score(seq![x], k) + with_score(out, k) =~= with_score(out, k));
    }
}

proof fn lemma_count_in_score_group<T: Scored>(s: Seq<T>, x: T)
    ensures
        with_score(s, x.score_spec()).to_multiset().count(x) == s.to_multiset().count(x),
    decreases s.len(),
{
    broadcast use vstd::seq_lib::group_to_multiset_ensures;
    reveal(Seq::filter);
    if s.len() > 0 {
        let rest = s.drop_last();
        lemma_count_in_score_group(rest, x);
        assert(s =~= rest.push(s.last()));
        let f = with_score(rest, x.score_spec());
        if s.last().score_spec() == x.score_spec() {
            assert(with_score(s, x.score_spec()) == f.push(s.last()));
        } else {
            assert(with_score(s, x.score_spec()) == f);
            assert(s.last() != x);
        }
    }
}

/// Sequences with the same items of each score hold the same items.
proof fn lemma_same_groups_same_items<T: Scored>(a: Seq<T>, b: Seq<T>)
    requires
        forall|k: u32| #[trigger] with_score(a, k) == with_score(b, k),
    ensures
        a.to_multiset() == b.to_multiset(),
{
    assert forall|x: T| a.to_multiset().count(x) == b.to_multiset().count(x) by {
        lemma_count_in_score_group(a, x);
        lemma_count_in_score_group(b, x);
        assert(with_score(a, x.score_spec()) == with_score(b, x.score_spec()));
    }
    assert(a.to_multiset() =~= b.to_multiset());
}

/// A ranking neither loses nor repeats an item: it holds each item of the
/// ranked sequence as often as that sequence does.
pub proof fn lemma_ranked_keeps_items<T: Scored>(r: Seq<T>, s: Seq<T>)
    requires
        ranked(r, s),
    ensures
        r.to_multiset() == s.to_multiset(),
{
    lemma_same_groups_same_items(r, s);
}

proof fn lemma_filter_front<T: Scored>(s: Seq<T>, k: u32)
    requires
        s.len() > 0,
    ensures
        with_score(s, k) == with_score(seq![s[0]], k) + with_score(s.drop_first(), k),
{
    assert(s =~= seq![s[0]] + s.drop_first());
    Seq::filter_distributes_over_add(seq![s[0]], s.drop_first(), score_is::<T>(k));
}

/// Two score-ordered sequences with the same items of each score, in the same
/// order, are the same sequence.
proof fn lemma_same_groups_equal<T: Scored>(a: Seq<T>, b: Seq<T>)
    requires
        sorted_by_score(a),
        sorted_by_score(b),
        forall|k: u32| #[trigger] with_score(a, k) == with_score(b, k),
    ensures
        a == b,
    decreases a.len(),
{
    broadcast use vstd::seq_lib::group_to_multiset_ensures;
    lemma_same_groups_same_items(a, b);
    assert(a.len() == a.to_multiset().len());
    assert(b.len() == b.to_multiset().len());
    if a.len() == 0 {
        assert(a =~= b);
    } else {
        let ma = a[0].score_spec();
        let mb = b[0].score_spec();
        lemma_filter_front(a, ma);
        lemma_filter_front(b, mb);
        lemma_filter_single(a[0], ma);
        lemma_filter_single(b[0], mb);
        assert(with_score(a, ma)[0] == a[0]);
        assert(with_score(b, ma).contains(a[0]));
        b.lemma_filter_contains_rev(score_is::<T>(ma), a[0]);
        assert(with_score(a, mb).contains(b[0]));
        a.lemma_filter_contains_rev(score_is::<T>(mb), b[0]);
        assert(ma == mb);
        assert(a[0] == b[0]);
        let a2 = a.drop_first();
        let b2 = b.drop_first();
        assert forall|k: u32| #[trigger] with_score(a2, k) == with_score(b2, k) by {
            lemma_filter_front(a, k);
            lemma_filter_front(b, k);
            let h = with_score(seq![a[0]], k);
            assert(h + with_score(a2, k) == h + with_score(b2, k));
            assert(with_score(a2, k) =~= (h + with_score(a2, k)).skip(h.len() as int));
            assert(with_score(b2, k) =~= (h + with_score(b2, k)).skip(h.len() as int));
        }
        lemma_same_groups_equal(a2, b2);
        assert(a =~= seq![a[0]] + a2);
        assert(b =~= seq![b[0]] + b2);
    }
}

/// A ranking is fully determined: there is only one way to rank a sequence.
pub proof fn lemma_ranking_unique<T: Scored>(r1: Seq<T>, r2: Seq<T>, s: Seq<T>)
    requires
        ranked(r1, s),
        ranked(r2, s),
    ensures
        r1 == r2,
{
    assert forall|k: u32| #[trigger] with_score(r1, k) == with_score(r2, k) by {
        assert(with_score(r1, k) == with_score(s, k));
        assert(with_score(r2, k) == with_score(s, k));
    }
    lemma_same_groups_equal(r1, r2);
}

/// Orders `items` by score, highest first; items of equal score keep their order.
pub fn sort_by_score<T: Scored>(items: Vec<T>) -> (r: Vec<T>)
    ensures
        ranked(r@, items@),
{
    let ghost all = items@;
    let mut rest = items;
    let mut out: Vec<T> = Vec::new();
    assert(all.skip(all.len() as int) =~= Seq::<T>::empty());
    while rest.len() > 0
        invariant
            rest@ == all.take(rest.len() as int),
            rest.len() <= all.len(),
            sorted_by_score(out@),
            forall|k: u32| #[trigger] with_score(out@, k) == with_score(all.skip(rest.len() as int), k),
        decreases rest.len(),
    {
        let n = rest.len();
        let x = rest.pop().unwrap();
        assert(x == all[n - 1]);
        assert(rest@ =~= all.take(n - 1));
        let xs = x.score();
        let mut p: usize = 0;
        while p < out.len() && out[p].score() > xs
            invariant
                p <= out.len(),
                forall|i: int| 0 <= i < p ==> out@[i].score_spec() > xs,
            decreases out.len() - p,
        {
            p = p + 1;
        }
        proof {
            assert forall|i: int| p <= i < out@.len() implies out@[i].score_spec() <= xs by {
                assert(out@[p as int].score_spec() <= xs);
            }
            assert(all.skip(n - 1) =~= seq![x] + all.skip(n as int));
            assert forall|k: u32| #[trigger] with_score(out@.insert(p as int, x), k)
                == with_score(all.skip(n - 1), k) by {
                lemma_insert_ranked(out@, p as int, x, k);
                Seq::filter_distributes_over_add(seq![x], all.skip(n as int), score_is::<T>(k));
            }
        }
        out.insert(p, x);
        proof {
            let o = out@;
            assert forall|i: int, j: int| 0 <= i < j < o.len() implies
                o[i].score_spec() >= o[j].score_spec() by {
                if j == p {
                } else if i == p {
                } else if j < p {
                } else if i > p {
                    assert(o[i] == out@[i]);
                }
            }
        }
    }
    assert(all.skip(0) =~= all);
    out
}

/// A score the metrics service reports for a project or a user.
pub struct ScoreRecord {
    pub id: String,
    pub score: u32,
}

/// A project as the projects service lists it.
pub struct ProjectDetails {
    pub id: String,
    pub name: String,
}

/// A user as the users service lists it.
pub struct UserDetails {
    pub id: String,
    pub username: String,
}

/// A popular project, with its score.
pub struct Project {
    pub id: String,
    pub name: String,
    pub score: u32,
}

/// A popular user, with its score.
pub struct User {
    pub id: String,
    pub username: String,
    pub score: u32,
}

/// The landing page: popular projects and users, most popular first.
pub struct PopularResponse {
    pub projects: Vec<Project>,
    pub users: Vec<User>,
}

impl Scored for Project {
    open spec fn score_spec(&self) -> u32 {
        self.score
    }

    fn score(&self) -> (s: u32) {
        self.score
    }
}

impl Scored for User {
    open spec fn score_spec(&self) -> u32 {
        self.score
    }

    fn score(&self) -> (s: u32) {
        self.score
    }
}

/// The score that `scores` gives `id`: a later report for the same id replaces an
/// earlier one, and an id without a report scores 0.
pub open spec fn score_of(scores: Seq<ScoreRecord>, id: Seq<char>) -> u32
    decreases scores.len(),
{
    if scores.len() == 0 {
        0
    } else if scores.last().id@ == id {
        scores.last().score
    } else {
        score_of(scores.drop_last(), id)
    }
}

/// The ids that `scores` reports on, each once, in the order of first report.
pub open spec fn scored_ids(scores: Seq<ScoreRecord>) -> Seq<Seq<char>> {
    distinct(scores.map_values(|r: ScoreRecord| r.id@))
}

/// The score that `scores` gives `id`, the last report winning, 0 without one.
pub fn find_score(scores: &Vec<ScoreRecord>, id: &String) -> (s: u32)
    ensures
        s == score_of(scores@, id@),
{
    let mut i: usize = scores.len();
    assert(scores@.take(i as int) =~= scores@);
    while i > 0
        invariant
            i <= scores.len(),
            score_of(scores@, id@) == score_of(scores@.take(i as int), id@),
        decreases i,
    {
        assert(scores@.take(i as int).drop_last() =~= scores@.take(i - 1));
        if scores[i - 1].id == *id {
            return scores[i - 1].score;
        }
        i = i - 1;
    }
    0
}

/// The ids that `scores` reports on, each once, in the order of first report.
pub fn ids_of(scores: &Vec<ScoreRecord>) -> (ids: Vec<String>)
    ensures
        views(ids@) == scored_ids(scores@),
{
    let mut all: Vec<String> = Vec::new();
    let mut i: usize = 0;
    while i < scores.len()
        invariant
            i <= scores.len(),
            views(all@) == scores@.take(i as int).map_values(|r: ScoreRecord| r.id@),
        decreases scores.len() - i,
    {
        let ghost before = all@;
        let id = scores[i].id.clone();
        all.push(id);
        assert(all@ =~= before.push(id));
        assert(views(all@) =~= views(before).push(id@));
        assert(scores@.take(i + 1) =~= scores@.take(i as int).push(scores@[i as int]));
        assert(views(all@) =~= scores@.take(i + 1).map_values(|r: ScoreRecord| r.id@));
        i = i + 1;
    }
    assert(scores@.take(i as int) =~= scores@);
    distinct_ids(&all)
}

/// The scores that the metrics service reported, kept while the details of the
/// scored projects and users are fetched.
pub struct PopularScores {
    pub projects: Vec<ScoreRecord>,
    pub users: Vec<ScoreRecord>,
}

/// What the landing page does after the scores have come back.
pub enum PopularNext {
    /// Fetch the details of these projects and users, then call `on_details`.
    FetchDetails { scores: PopularScores, project_ids: Vec<String>, user_ids: Vec<String> },
    /// Answer with this status.
    Fail(u16),
}

/// The projects of `details` with the scores that `scores` gives them, in order.
pub open spec fn scored_projects(details: Seq<ProjectDetails>, scores: Seq<ScoreRecord>) -> Seq<Project> {
    details.map_values(|d: ProjectDetails| Project { id: d.id, name: d.name, score: score_of(scores, d.id@) })
}

/// The users of `details` with the scores that `scores` gives them, in order.
pub open spec fn scored_users(details: Seq<UserDetails>, scores: Seq<ScoreRecord>) -> Seq<User> {
    details.map_values(|d: UserDetails| User { id: d.id, username: d.username, score: score_of(scores, d.id@) })
}

/// Step of the landing page once the metrics service has answered for projects
/// and for users. Either failure is a server error; otherwise the details of
/// every scored project and user are fetched next.
pub fn on_scores(
    projects: Result<Vec<ScoreRecord>, ClientError>,
    users: Result<Vec<ScoreRecord>, ClientError>,
) -> (next: PopularNext)
    ensures
        match (projects, users) {
            (Ok(p), Ok(u)) => next matches PopularNext::FetchDetails { scores, project_ids, user_ids } && {
                &&& scores.projects@ == p@
                &&& scores.users@ == u@
                &&& views(project_ids@) == scored_ids(p@)
                &&& views(user_ids@) == scored_ids(u@)
            },
            _ => next == PopularNext::Fail(INTERNAL_SERVER_ERROR),
        },
{
    match (projects, users) {
        (Ok(projects), Ok(users)) => {
            let project_ids = ids_of(&projects);
            let user_ids = ids_of(&users);
            PopularNext::FetchDetails {
                scores: PopularScores { projects, users },
                project_ids,
                user_ids,
            }
        },
        _ => PopularNext::Fail(INTERNAL_SERVER_ERROR),
    }
}

fn score_projects(details: &Vec<ProjectDetails>, scores: &Vec<ScoreRecord>) -> (r: Vec<Project>)
    ensures
        r@ == scored_projects(details@, scores@),
{
    let mut r: Vec<Project> = Vec::new();
    let mut i: usize = 0;
    while i < details.len()
        invariant
            i <= details.len(),
            r@ == scored_projects(details@.take(i as int), scores@),
        decreases details.len() - i,
    {
        let d = &details[i];
        let score = find_score(scores, &d.id);
        r.push(Project { id: d.id.clone(), name: d.name.clone(), score });
        assert(details@.take(i + 1) =~= details@.take(i as int).push(details@[i as int]));
        assert(r@ =~= scored_projects(details@.take(i + 1), scores@));
        i = i + 1;
    }
    assert(details@.take(i as int) =~= details@);
    r
}

fn score_users(details: &Vec<UserDetails>, scores: &Vec<ScoreRecord>) -> (r: Vec<User>)
    ensures
        r@ == scored_users(details@, scores@),
{
    let mut r: Vec<User> = Vec::new();
    let mut i: usize = 0;
    while i < details.len()
        invariant
            i <= details.len(),
            r@ == scored_users(details@.take(i as int), scores@),
        decreases details.len() - i,
    {
        let d = &details[i];
        let score = find_score(scores, &d.id);
        r.push(User { id: d.id.clone(), username: d.username.clone(), score });
        assert(details@.take(i + 1) =~= details@.take(i as int).push(details@[i as int]));
        assert(r@ =~= scored_users(details@.take(i + 1), scores@));
        i = i + 1;
    }
    assert(details@.take(i as int) =~= details@);
    r
}

/// Last step of the landing page, once the details have come back. Either
/// failure is a server error; otherwise each project and user gets the score
/// reported for it (0 without a report), and both lists are ordered by score,
/// highest first, keeping the order of the details among equal scores.
pub fn on_details(
    scores: PopularScores,
    projects: Result<Vec<ProjectDetails>, ClientError>,
    users: Result<Vec<UserDetails>, ClientError>,
) -> (r: Result<PopularResponse, u16>)
    ensures
        match (projects, users) {
            (Ok(p), Ok(u)) => r matches Ok(resp) && {
                &&& ranked(resp.projects@, scored_projects(p@, scores.projects@))
                &&& ranked(resp.users@, scored_users(u@, scores.users@))
                &&& forall|i: int, j: int| 0 <= i < j < resp.projects@.len()
                    ==> resp.projects@[i].score >= resp.projects@[j].score
                &&& forall|i: int, j: int| 0 <= i < j < resp.users@.len()
                    ==> resp.users@[i].score >= resp.users@[j].score
            },
            _ => r == Err::<PopularResponse, u16>(INTERNAL_SERVER_ERROR),
        },
{
    match (projects, users) {
        (Ok(projects), Ok(users)) => {
            let ghost project_details = projects@;
            let ghost user_details = users@;
            let projects = sort_by_score(score_projects(&projects, &scores.projects));
            let users = sort_by_score(score_users(&users, &scores.users));
            proof {
                lemma_popular_projects(projects@, project_details, scores.projects@);
                lemma_popular_users(users@, user_details, scores.users@);
            }
            Ok(PopularResponse { projects, users })
        },
        _ => Err(INTERNAL_SERVER_ERROR),
    }
}

/// The score that `scores` gives `id` is that of the last report on `id`, and 0
/// where there is none.
pub proof fn lemma_score_of(scores: Seq<ScoreRecord>, id: Seq<char>)
    ensures
        (forall|i: int| 0 <= i < scores.len() ==> scores[i].id@ != id) ==> score_of(scores, id) == 0,
        forall|i: int|
            0 <= i < scores.len() && scores[i].id@ == id && (forall|j: int| i < j < scores.len() ==> scores[j].id@ != id)
                ==> score_of(scores, id) == scores[i].score,
    decreases scores.len(),
{
    if scores.len() > 0 {
        let rest = scores.drop_last();
        lemma_score_of(rest, id);
        assert forall|i: int|
            0 <= i < scores.len() && scores[i].id@ == id && (forall|j: int| i < j < scores.len() ==> scores[j].id@ != id)
                implies score_of(scores, id) == scores[i].score by {
            if i < scores.len() - 1 {
                assert(scores[scores.len() - 1].id@ != id);
                assert(rest[i] == scores[i]);
                assert forall|j: int| i < j < rest.len() implies rest[j].id@ != id by {
                    assert(rest[j] == scores[j]);
                }
            }
        }
        if forall|i: int| 0 <= i < scores.len() ==> scores[i].id@ != id {
            assert(scores[scores.len() - 1].id@ != id);
            assert forall|i: int| 0 <= i < rest.len() implies rest[i].id@ != id by {
                assert(rest[i] == scores[i]);
            }
        }
    }
}

/// The projects of `s` whose score field is `k`, in their order in `s`.
pub open spec fn projects_scoring(s: Seq<Project>, k: u32) -> Seq<Project> {
    s.filter(|p: Project| p.score == k)
}

/// The users of `s` whose score field is `k`, in their order in `s`.
pub open spec fn users_scoring(s: Seq<User>, k: u32) -> Seq<User> {
    s.filter(|u: User| u.score == k)
}

/// `p` is a project of `details`, by id and name, with the score that `scores`
/// gives it.
pub open spec fn project_from_details(p: Project, details: Seq<ProjectDetails>, scores: Seq<ScoreRecord>) -> bool {
    exists|j: int|
        0 <= j < details.len() && #[trigger] details[j].id == p.id && details[j].name == p.name
            && p.score == score_of(scores, details[j].id@)
}

/// `u` is a user of `details`, by id and name, with the score that `scores`
/// gives it.
pub open spec fn user_from_details(u: User, details: Seq<UserDetails>, scores: Seq<ScoreRecord>) -> bool {
    exists|j: int|
        0 <= j < details.len() && #[trigger] details[j].id == u.id && details[j].username == u.username
            && u.score == score_of(scores, details[j].id@)
}

/// The popular projects, as the landing page ranks them: from the highest score
/// down, each with the id and name of a project of the details and the score
/// reported for it, none lost or repeated, and projects of equal score in the
/// order of the details.
pub proof fn lemma_popular_projects(r: Seq<Project>, details: Seq<ProjectDetails>, scores: Seq<ScoreRecord>)
    requires
        ranked(r, scored_projects(details, scores)),
    ensures
        forall|i: int, j: int| 0 <= i < j < r.len() ==> r[i].score >= r[j].score,
        r.len() == details.len(),
        forall|i: int| 0 <= i < r.len() ==> #[trigger] project_from_details(r[i], details, scores),
        forall|k: u32| #[trigger] projects_scoring(r, k) == projects_scoring(scored_projects(details, scores), k),
{
    broadcast use vstd::seq_lib::group_to_multiset_ensures;
    let s = scored_projects(details, scores);
    lemma_ranked_keeps_items(r, s);
    assert(r.len() == r.to_multiset().len());
    assert(s.len() == s.to_multiset().len());
    assert forall|i: int| 0 <= i < r.len() implies #[trigger] project_from_details(r[i], details, scores) by {
        assert(r.contains(r[i]));
        assert(r.to_multiset().count(r[i]) > 0);
        assert(s.to_multiset().count(r[i]) > 0);
        assert(s.contains(r[i]));
        let j = choose|j: int| 0 <= j < s.len() && s[j] == r[i];
        assert(s[j] == (Project { id: details[j].id, name: details[j].name, score: score_of(scores, details[j].id@) }));
    }
    assert forall|k: u32| #[trigger] projects_scoring(r, k) == projects_scoring(s, k) by {
        assert(score_is::<Project>(k) =~= (|p: Project| p.score == k));
        assert(with_score(r, k) == with_score(s, k));
    }
}

/// The popular users, as the landing page ranks them: from the highest score
/// down, each with the id and name of a user of the details and the score
/// reported for it, none lost or repeated, and users of equal score in the order
/// of the details.
pub proof fn lemma_popular_users(r: Seq<User>, details: Seq<UserDetails>, scores: Seq<ScoreRecord>)
    requires
        ranked(r, scored_users(details, scores)),
    ensures
        forall|i: int, j: int| 0 <= i < j < r.len() ==> r[i].score >= r[j].score,
        r.len() == details.len(),
        forall|i: int| 0 <= i < r.len() ==> #[trigger] user_from_details(r[i], details, scores),
        forall|k: u32| #[trigger] users_scoring(r, k) == users_scoring(scored_users(details, scores), k),
{
    broadcast use vstd::seq_lib::group_to_multiset_ensures;
    let s = scored_users(details, scores);
    lemma_ranked_keeps_items(r, s);
    assert(r.len() == r.to_multiset().len());
    assert(s.len() == s.to_multiset().len());
    assert forall|i: int| 0 <= i < r.len() implies #[trigger] user_from_details(r[i], details, scores) by {
        assert(r.contains(r[i]));
        assert(r.to_multiset().count(r[i]) > 0);
        assert(s.to_multiset().count(r[i]) > 0);
        assert(s.contains(r[i]));
        let j = choose|j: int| 0 <= j < s.len() && s[j] == r[i];
        assert(s[j] == (User { id: details[j].id, username: details[j].username, score: score_of(scores, details[j].id@) }));
    }
    assert forall|k: u32| #[trigger] users_scoring(r, k) == users_scoring(s, k) by {
        assert(score_is::<User>(k) =~= (|u: User| u.score == k));
        assert(with_score(r, k) == with_score(s, k));
    }
}

} // verus!
