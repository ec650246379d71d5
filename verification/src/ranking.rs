//! The ranking of a room's users by line count.

use vstd::prelude::*;

verus! {

/// A user and the number of lines they wrote.
#[derive(Debug, Clone, PartialEq, Eq)]
pub struct UserCount {
    pub userid: String,
    pub lines: i32,
}

/// A user and their line count as a mathematical value.
pub struct UserCountView {
    pub userid: Seq<char>,
    pub lines: int,
}

impl View for UserCount {
    type V = UserCountView;

    open spec fn view(&self) -> UserCountView {
        UserCountView { userid: self.userid@, lines: self.lines as int }
    }
}

/// The values of a list of users.
pub open spec fn user_views(users: Seq<UserCount>) -> Seq<UserCountView> {
    users.map_values(|user: UserCount| user@)
}

/// How many of `total` ranked users are kept: all of them where no number is
/// asked for, none for a number below one, else at most that number.
pub open spec fn kept(total: nat, num_users: Option<i32>) -> nat {
    match num_users {
        None => total,
        Some(n) => if n <= 0 {
            0
        } else if n < total {
            n as nat
        } else {
            total
        },
    }
}

/// The head of a ranking that a request for `num_users` users keeps.
pub open spec fn top_of(users: Seq<UserCountView>, num_users: Option<i32>) -> Seq<UserCountView> {
    users.take(kept(users.len(), num_users) as int)
}

/// Users in the order of a ranking: no user has more lines than one before.
pub open spec fn is_ranked(users: Seq<UserCountView>) -> bool {
    forall|i: int, j: int| 0 <= i <= j < users.len() ==> users[i].lines >= users[j].lines
}

/// No user is listed twice.
pub open spec fn is_distinct(users: Seq<UserCountView>) -> bool {
    forall|i: int, j: int| 0 <= i < j < users.len() ==> users[i].userid != users[j].userid
}

/// Where a user with `lines` lines enters a ranking: behind every user with
/// at least as many lines, before the users with fewer.
pub open spec fn place_of(ranking: Seq<UserCountView>, lines: int) -> int
    decreases ranking.len(),
{
    if ranking.len() == 0 || ranking.last().lines >= lines {
        ranking.len() as int
    } else {
        place_of(ranking.drop_last(), lines)
    }
}

/// The ranking of a list of users: each user in turn enters at their place, so
/// that users with more lines come first and users with equally many stay in
/// the order in which they were listed.
pub open spec fn ranking(users: Seq<UserCountView>) -> Seq<UserCountView>
    decreases users.len(),
{
    if users.len() == 0 {
        Seq::empty()
    } else {
        let before = ranking(users.drop_last());
        before.insert(place_of(before, users.last().lines), users.last())
    }
}

/// The place of a user lies within the ranking, everyone from it on has fewer
/// lines, and whoever stands right before it has at least as many.
pub proof fn lemma_place_of(ranking: Seq<UserCountView>, lines: int)
    ensures
        0 <= place_of(ranking, lines) <= ranking.len(),
        forall|j: int| place_of(ranking, lines) <= j < ranking.len() ==> ranking[j].lines < lines,
        place_of(ranking, lines) > 0 ==> ranking[place_of(ranking, lines) - 1].lines >= lines,
    decreases ranking.len(),
{
    if ranking.len() != 0 && ranking.last().lines < lines {
        let shorter = ranking.drop_last();
        lemma_place_of(shorter, lines);
        assert forall|j: int| place_of(ranking, lines) <= j < ranking.len() implies ranking[j].lines
            < lines by {
            if j < shorter.len() {
                assert(shorter[j] == ranking[j]);
            }
        }
        if place_of(ranking, lines) > 0 {
            assert(shorter[place_of(ranking, lines) - 1] == ranking[place_of(ranking, lines) - 1]);
        }
    }
}

/// A ranking stays one when a user enters at their place.
pub proof fn lemma_entry_keeps_ranked(ranking: Seq<UserCountView>, user: UserCountView)
    requires
        is_ranked(ranking),
    ensures
        is_ranked(ranking.insert(place_of(ranking, user.lines), user)),
{
    lemma_place_of(ranking, user.lines);
    let p = place_of(ranking, user.lines);
    let after = ranking.insert(p, user);
    assert forall|i: int, j: int| 0 <= i <= j < after.len() implies after[i].lines
        >= after[j].lines by {
        if i < p {
            assert(after[i] == ranking[i]);
            assert(ranking[i].lines >= ranking[p - 1].lines);
        } else if i > p {
            assert(after[i] == ranking[i - 1]);
        }
        if j < p {
            assert(after[j] == ranking[j]);
        } else if j > p {
            assert(after[j] == ranking[j - 1]);
        }
    }
}

/// A user who enters a ranking is added to it once, and nobody leaves.
pub proof fn lemma_entry_adds_one(ranking: Seq<UserCountView>, place: int, user: UserCountView)
    requires
        0 <= place <= ranking.len(),
    ensures
        ranking.insert(place, user).to_multiset() == ranking.to_multiset().insert(user),
{
    broadcast use vstd::seq_lib::group_to_multiset_ensures;

    let after = ranking.insert(place, user);
    assert(after[place] == user);
    assert(after.remove(place) =~= ranking);
    assert(after.to_multiset().remove(user) =~= ranking.to_multiset());
    assert(after.contains(user));
    assert(after.to_multiset().count(user) > 0);
    assert(after.to_multiset() =~= ranking.to_multiset().insert(user));
}

/// In the ranking of any list of users, no user has more lines than a user
/// before them.
pub proof fn lemma_ranking_is_ranked(users: Seq<UserCountView>)
    ensures
        is_ranked(ranking(users)),
    decreases users.len(),
{
    if users.len() > 0 {
        lemma_ranking_is_ranked(users.drop_last());
        lemma_entry_keeps_ranked(ranking(users.drop_last()), users.last());
    }
}

/// The ranking of a list of users holds the same users, each as often as the
/// list does.
pub proof fn lemma_ranking_permutes(users: Seq<UserCountView>)
    ensures
        ranking(users).to_multiset() == users.to_multiset(),
        ranking(users).len() == users.len(),
    decreases users.len(),
{
    broadcast use vstd::seq_lib::group_to_multiset_ensures;

    if users.len() > 0 {
        let before = ranking(users.drop_last());
        lemma_ranking_permutes(users.drop_last());
        lemma_place_of(before, users.last().lines);
        lemma_entry_adds_one(before, place_of(before, users.last().lines), users.last());
        assert(users.drop_last().push(users.last()) =~= users);
    } else {
        assert(ranking(users).to_multiset() =~= users.to_multiset());
    }
}

/// Ranking changes nothing in a list that is ranked already: users with
/// equally many lines keep the order in which they were listed.
pub proof fn lemma_ranking_keeps_ranked(users: Seq<UserCountView>)
    requires
        is_ranked(users),
    ensures
        ranking(users) == users,
    decreases users.len(),
{
    if users.len() > 0 {
        let before = users.drop_last();
        assert(is_ranked(before)) by {
            assert forall|i: int, j: int| 0 <= i <= j < before.len() implies before[i].lines
                >= before[j].lines by {
                assert(before[i] == users[i] && before[j] == users[j]);
            }
        }
        lemma_ranking_keeps_ranked(before);
        if before.len() > 0 {
            assert(before.last() == users[users.len() - 2]);
        }
        assert(place_of(before, users.last().lines) == before.len());
        assert(before.insert(before.len() as int, users.last()) =~= users);
    }
}

/// The test for a user with exactly `lines` lines.
pub open spec fn has_lines(lines: int) -> spec_fn(UserCountView) -> bool {
    |user: UserCountView| user.lines == lines
}

/// The users of a list who have exactly `lines` lines, in the order listed.
pub open spec fn with_lines(users: Seq<UserCountView>, lines: int) -> Seq<UserCountView> {
    users.filter(has_lines(lines))
}

/// Where every user has another number of lines, none is picked.
pub proof fn lemma_none_with_lines(users: Seq<UserCountView>, lines: int)
    requires
        forall|i: int| 0 <= i < users.len() ==> users[i].lines != lines,
    ensures
        with_lines(users, lines) == Seq::<UserCountView>::empty(),
    decreases users.len(),
{
    reveal(Seq::filter);
    if users.len() > 0 {
        lemma_none_with_lines(users.drop_last(), lines);
    }
}

/// Ranking is stable: the users with equally many lines stand in the ranking
/// in the order in which they were listed.
pub proof fn lemma_ranking_is_stable(users: Seq<UserCountView>, lines: int)
    ensures
        with_lines(ranking(users), lines) == with_lines(users, lines),
    decreases users.len(),
{
    reveal(Seq::filter);
    if users.len() > 0 {
        let last = users.last();
        let before = ranking(users.drop_last());
        let place = place_of(before, last.lines);
        lemma_ranking_is_stable(users.drop_last(), lines);
        lemma_place_of(before, last.lines);
        let ahead = before.subrange(0, place);
        let behind = before.subrange(place, before.len() as int);
        assert(ahead + behind =~= before);
        Seq::filter_distributes_over_add(ahead, behind, has_lines(lines));
        Seq::filter_distributes_over_add(ahead.push(last), behind, has_lines(lines));
        assert(ahead.push(last).drop_last() =~= ahead);
        if last.lines == lines {
            lemma_none_with_lines(behind, lines);
            assert(with_lines(ahead, lines) + with_lines(behind, lines) =~= with_lines(
                ahead,
                lines,
            ));
            assert(with_lines(ahead.push(last), lines) + with_lines(behind, lines)
                =~= with_lines(ahead.push(last), lines));
        }
    }
}

/// Ranking a list without repeated users repeats no user.
pub proof fn lemma_ranking_keeps_distinct(users: Seq<UserCountView>)
    requires
        is_distinct(users),
    ensures
        is_distinct(ranking(users)),
    decreases users.len(),
{
    broadcast use vstd::seq_lib::group_to_multiset_ensures;

    if users.len() > 0 {
        let shorter = users.drop_last();
        let last = users.last();
        assert(is_distinct(shorter)) by {
            assert forall|i: int, j: int| 0 <= i < j < shorter.len() implies shorter[i].userid
                != shorter[j].userid by {
                assert(shorter[i] == users[i] && shorter[j] == users[j]);
            }
        }
        lemma_ranking_keeps_distinct(shorter);
        lemma_ranking_permutes(shorter);
        let before = ranking(shorter);
        lemma_place_of(before, last.lines);
        let place = place_of(before, last.lines);
        let after = before.insert(place, last);
        assert forall|k: int| 0 <= k < before.len() implies before[k].userid != last.userid by {
            assert(before.contains(before[k]));
            assert(before.to_multiset().count(before[k]) > 0);
            assert(shorter.contains(before[k]));
            let j = choose|j: int| 0 <= j < shorter.len() && shorter[j] == before[k];
            assert(users[j] == shorter[j]);
        }
        assert forall|i: int, j: int| 0 <= i < j < after.len() implies after[i].userid
            != after[j].userid by {
            if i < place {
                assert(after[i] == before[i]);
            } else if i > place {
                assert(after[i] == before[i - 1]);
            }
            if j < place {
                assert(after[j] == before[j]);
            } else if j > place {
                assert(after[j] == before[j - 1]);
            }
        }
    }
}

/// The head of a list without repeated users has no repeated users.
pub proof fn lemma_top_is_distinct(users: Seq<UserCountView>, num_users: Option<i32>)
    requires
        is_distinct(users),
    ensures
        is_distinct(top_of(users, num_users)),
{
    let top = top_of(users, num_users);
    assert forall|i: int, j: int| 0 <= i < j < top.len() implies top[i].userid
        != top[j].userid by {
        assert(top[i] == users[i] && top[j] == users[j]);
    }
}

/// Truncating a ranking keeps a ranking, and every user kept has at least as
/// many lines as every user left out.
pub proof fn lemma_top_outranks_rest(users: Seq<UserCountView>, num_users: Option<i32>)
    requires
        is_ranked(users),
    ensures
        is_ranked(top_of(users, num_users)),
        top_of(users, num_users).len() == kept(users.len(), num_users),
        num_users matches Some(n) ==> top_of(users, num_users).len() <= if n < 0 {
            0
        } else {
            n as int
        },
        forall|i: int, j: int|
            0 <= i < kept(users.len(), num_users) <= j < users.len() ==> top_of(
                users,
                num_users,
            )[i].lines >= users[j].lines,
{
    let top = top_of(users, num_users);
    assert forall|i: int, j: int| 0 <= i <= j < top.len() implies top[i].lines
        >= top[j].lines by {
        assert(top[i] == users[i] && top[j] == users[j]);
    }
}

/// Ranks users by their lines, most first; users with equally many lines stay
/// in the order given.
pub fn rank(users: &Vec<UserCount>) -> (r: Vec<UserCount>)
    ensures
        user_views(r@) == ranking(user_views(users@)),
{
    let ghost given = user_views(users@);
    let mut out: Vec<UserCount> = Vec::new();
    let mut i: usize = 0;
    assert(user_views(out@) =~= ranking(given.take(0)));
    while i < users.len()
        invariant
            i <= users.len(),
            given == user_views(users@),
            user_views(out@) == ranking(given.take(i as int)),
        decreases users.len() - i,
    {
        let user = UserCount { userid: users[i].userid.clone(), lines: users[i].lines };
        let ghost ranked = user_views(out@);
        let mut place: usize = out.len();
        assert(ranked.take(place as int) =~= ranked);
        while place > 0 && out[place - 1].lines < user.lines
            invariant
                place <= out.len(),
                ranked == user_views(out@),
                place_of(ranked, user.lines as int) == place_of(
                    ranked.take(place as int),
                    user.lines as int,
                ),
            decreases place,
        {
            assert(ranked.take(place as int).drop_last() =~= ranked.take(place - 1));
            assert(ranked.take(place as int).last() == out@[place - 1]@);
            place -= 1;
        }
        proof {
            let before = given.take(i as int);
            let with_user = given.take(i + 1);
            assert(with_user.drop_last() =~= before);
            assert(with_user.last() == user@);
            assert(place > 0 ==> ranked.take(place as int).last() == out@[place - 1]@);
            assert(place_of(ranked.take(place as int), user.lines as int) == place as int);
            assert(ranking(with_user) == ranking(before).insert(
                place_of(ranking(before), user.lines as int),
                user@,
            ));
        }
        out.insert(place, user);
        assert(user_views(out@) =~= ranked.insert(place as int, user@));
        i += 1;
    }
    assert(given.take(users.len() as int) =~= given);
    out
}

/// Tells whether no user is listed twice.
pub fn distinct_users(users: &Vec<UserCount>) -> (r: bool)
    ensures
        r == is_distinct(user_views(users@)),
{
    let ghost views = user_views(users@);
    let mut j: usize = 0;
    while j < users.len()
        invariant
            j <= users.len(),
            views == user_views(users@),
            forall|a: int, b: int| 0 <= a < b < j ==> views[a].userid != views[b].userid,
        decreases users.len() - j,
    {
        let mut i: usize = 0;
        while i < j
            invariant
                i <= j < users.len(),
                views == user_views(users@),
                forall|a: int| 0 <= a < i ==> views[a].userid != views[j as int].userid,
            decreases j - i,
        {
            if users[i].userid == users[j].userid {
                assert(views[i as int].userid == views[j as int].userid);
                return false;
            }
            i += 1;
        }
        j += 1;
    }
    true
}

/// Keeps the first `num_users` users of a ranking, or all where no number is
/// given.
pub fn top_n(users: Vec<UserCount>, num_users: Option<i32>) -> (r: Vec<UserCount>)
    ensures
        user_views(r@) == top_of(user_views(users@), num_users),
{
    let ghost given = user_views(users@);
    let mut users = users;
    match num_users {
        None => {},
        Some(n) => {
            if n <= 0 {
                users.truncate(0);
            } else if (n as usize) < users.len() {
                users.truncate(n as usize);
            }
        },
    }
    assert(user_views(users@) =~= top_of(given, num_users));
    users
}

/// The line count that a list holds for a user: that of the first entry with
/// this identifier, or nothing where no entry has it.
pub open spec fn listed_lines(users: Seq<UserCountView>, userid: Seq<char>) -> Option<int>
    decreases users.len(),
{
    if users.len() == 0 {
        None
    } else if users.first().userid == userid {
        Some(users.first().lines)
    } else {
        listed_lines(users.drop_first(), userid)
    }
}

/// Looks up the line count that a list holds for a user.
pub fn lines_of(users: &Vec<UserCount>, userid: &str) -> (r: Option<i32>)
    ensures
        match r {
            Some(n) => listed_lines(user_views(users@), userid@) == Some(n as int),
            None => listed_lines(user_views(users@), userid@) is None,
        },
{
    let ghost views = user_views(users@);
    let wanted = String::from_str(userid);
    let mut i: usize = 0;
    assert(views.skip(0) =~= views);
    while i < users.len()
        invariant
            i <= users.len(),
            wanted@ == userid@,
            views == user_views(users@),
            listed_lines(views, userid@) == listed_lines(views.skip(i as int), userid@),
        decreases users.len() - i,
    {
        assert(views.skip(i as int).first() == users@[i as int]@);
        assert(views.skip(i as int).drop_first() =~= views.skip(i + 1));
        if users[i].userid == wanted {
            return Some(users[i].lines);
        }
        i += 1;
    }
    None
}

} // verus!
