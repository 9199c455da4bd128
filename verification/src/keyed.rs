use vstd::prelude::*;

verus! {

/// A user as the users service describes one: its id and its name.
pub struct UserRecord {
    pub id: String,
    pub username: String,
}

/// The characters of each string.
pub open spec fn views(s: Seq<String>) -> Seq<Seq<char>> {
    s.map_values(|x: String| x@)
}

/// The ids of `ids`, each once, in the order in which each first occurs.
pub open spec fn distinct(ids: Seq<Seq<char>>) -> Seq<Seq<char>>
    decreases ids.len(),
{
    if ids.len() == 0 {
        ids
    } else {
        let before = distinct(ids.drop_last());
        if before.contains(ids.last()) {
            before
        } else {
            before.push(ids.last())
        }
    }
}

/// `distinct(ids)` holds each id of `ids` exactly once, and nothing else.
pub proof fn lemma_distinct(ids: Seq<Seq<char>>)
    ensures
        distinct(ids).no_duplicates(),
        distinct(ids).to_set() == ids.to_set(),
    decreases ids.len(),
{
    if ids.len() > 0 {
        lemma_distinct(ids.drop_last());
        assert(ids =~= ids.drop_last().push(ids.last()));
        let before = distinct(ids.drop_last());
        assert(ids.to_set() =~= ids.drop_last().to_set().insert(ids.last())) by {
            assert forall|x: Seq<char>| ids.to_set().contains(x) implies
                ids.drop_last().to_set().insert(ids.last()).contains(x) by {
                let i = choose|i: int| 0 <= i < ids.len() && ids[i] == x;
                if i < ids.len() - 1 {
                    assert(ids.drop_last()[i] == x);
                }
            }
            assert forall|x: Seq<char>| ids.drop_last().to_set().insert(ids.last()).contains(x)
                implies ids.to_set().contains(x) by {
                if x != ids.last() {
                    let i = choose|i: int| 0 <= i < ids.drop_last().len() && ids.drop_last()[i] == x;
                    assert(ids[i] == x);
                } else {
                    assert(ids[ids.len() - 1] == x);
                }
            }
        }
        if before.contains(ids.last()) {
            assert(before.to_set().contains(ids.last()));
            assert(ids.to_set() =~= before.to_set());
        } else {
            assert(before.push(ids.last()).to_set() =~= before.to_set().insert(ids.last())) by {
                assert forall|x: Seq<char>| before.push(ids.last()).to_set().contains(x) implies
                    before.to_set().insert(ids.last()).contains(x) by {
                    let i = choose|i: int| 0 <= i < before.len() + 1 && before.push(ids.last())[i] == x;
                    if i < before.len() {
                        assert(before[i] == x);
                    }
                }
                assert forall|x: Seq<char>| before.to_set().insert(ids.last()).contains(x) implies
                    before.push(ids.last()).to_set().contains(x) by {
                    if x != ids.last() {
                        let i = choose|i: int| 0 <= i < before.len() && before[i] == x;
                        assert(before.push(ids.last())[i] == x);
                    } else {
                        assert(before.push(ids.last())[before.len() as int] == x);
                    }
                }
            }
            let after = before.push(ids.last());
            assert forall|i: int, j: int| 0 <= i < after.len() && 0 <= j < after.len() && i != j
                implies after[i] != after[j] by {
                if i == before.len() {
                    assert(after[j] == before[j]);
                } else if j == before.len() {
                    assert(after[i] == before[i]);
                }
            }
        }
    }
}

/// The ids of `ids`, each once, in the order in which each first occurs.
pub fn distinct_ids(ids: &Vec<String>) -> (r: Vec<String>)
    ensures
        views(r@) == distinct(views(ids@)),
        views(r@).no_duplicates(),
        views(r@).to_set() == views(ids@).to_set(),
{
    let mut r: Vec<String> = Vec::new();
    let mut i: usize = 0;
    while i < ids.len()
        invariant
            i <= ids.len(),
            views(r@) == distinct(views(ids@).take(i as int)),
        decreases ids.len() - i,
    {
        let ghost before = views(ids@).take(i as int);
        assert(views(ids@).take(i + 1).drop_last() =~= before);
        assert(views(ids@).take(i + 1).last() == ids@[i as int]@);
        let mut seen = false;
        let mut j: usize = 0;
        while j < r.len()
            invariant
                i < ids.len(),
                j <= r.len(),
                seen == exists|k: int| 0 <= k < j && r@[k]@ == ids@[i as int]@,
            decreases r.len() - j,
        {
            if r[j] == ids[i] {
                seen = true;
            }
            j = j + 1;
        }
        proof {
            let rv = views(r@);
            if seen {
                let k = choose|k: int| 0 <= k < j && r@[k]@ == ids@[i as int]@;
                assert(rv[k] == ids@[i as int]@);
            } else {
                assert forall|k: int| 0 <= k < rv.len() implies rv[k] != ids@[i as int]@ by {
                    assert(rv[k] == r@[k]@);
                }
            }
        }
        if !seen {
            r.push(ids[i].clone());
            assert(views(r@) =~= distinct(views(ids@).take(i as int)).push(ids@[i as int]@));
        }
        i = i + 1;
    }
    assert(views(ids@).take(i as int) =~= views(ids@));
    proof {
        lemma_distinct(views(ids@));
    }
    r
}

/// The name of the user with `id`, where a later entry for the same id
/// replaces an earlier one; `None` where `users` has no entry for it.
pub open spec fn username_of(users: Seq<UserRecord>, id: Seq<char>) -> Option<String>
    decreases users.len(),
{
    if users.len() == 0 {
        None
    } else if users.last().id@ == id {
        Some(users.last().username)
    } else {
        username_of(users.drop_last(), id)
    }
}

/// The name that `users` gives `id` is that of its last entry for `id`, and
/// there is none where `users` has no entry for `id`.
pub proof fn lemma_username_of(users: Seq<UserRecord>, id: Seq<char>)
    ensures
        (forall|i: int| 0 <= i < users.len() ==> users[i].id@ != id) <==> username_of(users, id) is None,
        forall|i: int|
            0 <= i < users.len() && users[i].id@ == id && (forall|j: int| i < j < users.len() ==> users[j].id@ != id)
                ==> username_of(users, id) == Some(users[i].username),
    decreases users.len(),
{
    if users.len() > 0 {
        let rest = users.drop_last();
        lemma_username_of(rest, id);
        assert forall|i: int|
            0 <= i < users.len() && users[i].id@ == id && (forall|j: int| i < j < users.len() ==> users[j].id@ != id)
                implies username_of(users, id) == Some(users[i].username) by {
            if i < users.len() - 1 {
                assert(users[users.len() - 1].id@ != id);
                assert(rest[i] == users[i]);
                assert forall|j: int| i < j < rest.len() implies rest[j].id@ != id by {
                    assert(rest[j] == users[j]);
                }
            }
        }
        if forall|i: int| 0 <= i < users.len() ==> users[i].id@ != id {
            assert(users[users.len() - 1].id@ != id);
            assert forall|i: int| 0 <= i < rest.len() implies rest[i].id@ != id by {
                assert(rest[i] == users[i]);
            }
        }
        if username_of(users, id) is None {
            assert(users.last().id@ != id);
            assert forall|i: int| 0 <= i < users.len() implies users[i].id@ != id by {
                if i < users.len() - 1 {
                    assert(rest[i] == users[i]);
                }
            }
        }
    }
}

/// The name of the user with `id`, the last entry for it winning.
pub fn find_username(users: &Vec<UserRecord>, id: &String) -> (r: Option<String>)
    ensures
        r == username_of(users@, id@),
{
    let mut i: usize = users.len();
    assert(users@.take(i as int) =~= users@);
    while i > 0
        invariant
            i <= users.len(),
            username_of(users@, id@) == username_of(users@.take(i as int), id@),
        decreases i,
    {
        let ghost prefix = users@.take(i as int);
        assert(prefix.drop_last() =~= users@.take(i - 1));
        if users[i - 1].id == *id {
            return Some(users[i - 1].username.clone());
        }
        i = i - 1;
    }
    None
}

} // verus!
