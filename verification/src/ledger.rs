//! Score bookkeeping: cumulative per-user scores, standing (rank among
//! all scores), and the leaderboard.  The persistent store behind it
//! only loads and saves rows; every rule about them lives here.

use vstd::prelude::*;
use vstd::math::min;

verus! {

/// One user's cumulative score.
#[derive(Clone, Copy, Debug, PartialEq, Eq, Structural)]
pub struct ScoreRow {
    /// The user's identifier.
    pub user: u64,
    /// The user's cumulative score.
    pub score: i64,
}

/// The strict total order of the leaderboard: higher score first, and
/// the lower user identifier first among equal scores.  The explicit
/// tie-break keeps the board deterministic.
pub open spec fn outranks(a: ScoreRow, b: ScoreRow) -> bool {
    a.score > b.score || (a.score == b.score && a.user < b.user)
}

/// How many rows score at least `s`.
pub open spec fn count_ge(rows: Seq<ScoreRow>, s: int) -> int
    decreases rows.len(),
{
    if rows.len() == 0 {
        0
    } else {
        count_ge(rows.drop_last(), s) + if rows.last().score >= s {
            1int
        } else {
            0int
        }
    }
}

/// The cumulative score table, one row per user.
pub struct ScoreLedger {
    /// The rows, in no particular order; users are unique and scores
    /// non-negative.
    pub rows: Vec<ScoreRow>,
}

impl ScoreLedger {
    /// Users are unique and scores non-negative.
    pub open spec fn wf(self) -> bool {
        &&& forall|i: int, j: int|
            0 <= i < j < self.rows@.len() ==> (#[trigger] self.rows@[i]).user != (
            #[trigger] self.rows@[j]).user
        &&& forall|i: int| 0 <= i < self.rows@.len() ==> (#[trigger] self.rows@[i]).score >= 0
    }

    /// Whether the ledger holds a row for `u`.
    pub open spec fn has_user(self, u: u64) -> bool {
        exists|i: int| 0 <= i < self.rows@.len() && (#[trigger] self.rows@[i]).user == u
    }

    /// The cumulative score of `u`: the score on their row, or zero when
    /// they have none.
    pub open spec fn score_of(self, u: u64) -> int {
        if self.has_user(u) {
            let i = choose|i: int|
                0 <= i < self.rows@.len() && (#[trigger] self.rows@[i]).user == u;
            self.rows@[i].score as int
        } else {
            0
        }
    }

    /// The row at a valid index gives its user's score.
    pub proof fn lemma_score_at(self, k: int)
        requires
            self.wf(),
            0 <= k < self.rows@.len(),
        ensures
            self.has_user(self.rows@[k].user),
            self.score_of(self.rows@[k].user) == self.rows@[k].score,
    {
        let u = self.rows@[k].user;
        assert(0 <= k < self.rows@.len() && self.rows@[k].user == u);
        let i = choose|i: int| 0 <= i < self.rows@.len() && (#[trigger] self.rows@[i]).user == u;
        if i < k {
            assert(self.rows@[i].user != self.rows@[k].user);
        } else if k < i {
            assert(self.rows@[k].user != self.rows@[i].user);
        }
    }

    /// An empty ledger.
    pub fn new() -> (l: ScoreLedger)
        ensures
            l.wf(),
            l.rows@.len() == 0,
    {
        ScoreLedger { rows: Vec::new() }
    }

    /// The index of the user's row, if any.
    fn find_user_index(&self, u: u64) -> (r: Option<usize>)
        ensures
            r matches Some(k) ==> k < self.rows@.len() && self.rows@[k as int].user == u,
            r is None ==> !self.has_user(u),
    {
        let n = self.rows.len();
        let mut i: usize = 0;
        while i < n
            invariant
                n == self.rows@.len(),
                0 <= i <= n,
                forall|j: int| 0 <= j < i ==> (#[trigger] self.rows@[j]).user != u,
            decreases n - i,
        {
            if self.rows[i].user == u {
                return Some(i);
            }
            i += 1;
        }
        None
    }

    /// Read-modify-write of the user's cumulative score: a missing row
    /// is created as zero first, then `delta` is added.  Every other row
    /// is untouched.  Returns the new total.
    pub fn increment_score(&mut self, user: u64, delta: i64) -> (total: i64)
        requires
            old(self).wf(),
            0 <= delta,
            old(self).score_of(user) + delta <= i64::MAX,
        ensures
            final(self).wf(),
            final(self).has_user(user),
            final(self).score_of(user) == old(self).score_of(user) + delta,
            total as int == final(self).score_of(user),
            forall|u2: u64| u2 != user ==> final(self).score_of(u2) == old(self).score_of(u2),
            forall|u2: u64| u2 != user ==> (final(self).has_user(u2) <==> old(self).has_user(u2)),
            final(self).rows@.len() == old(self).rows@.len() + if old(self).has_user(user) {
                0int
            } else {
                1int
            },
    {
        let found = self.find_user_index(user);
        match found {
            Some(k) => {
                proof {
                    old(self).lemma_score_at(k as int);
                }
                let row = self.rows.remove(k);
                let new_row = ScoreRow { user, score: row.score + delta };
                self.rows.push(new_row);
                proof {
                    let pre = old(self).rows@;
                    let post = self.rows@;
                    let n = pre.len() as int;
                    assert(post =~= pre.remove(k as int).push(new_row));
                    pre.remove_ensures(k as int);
                    assert(forall|j: int|
                        0 <= j < n - 1 ==> #[trigger] post[j] == (if j < k {
                            pre[j]
                        } else {
                            pre[j + 1]
                        }));
                    assert(post[n - 1] == new_row);
                    assert(self.wf());
                    assert(self.has_user(user)) by {
                        assert(post[n - 1].user == user);
                    }
                    self.lemma_score_at(n - 1);
                    assert forall|u2: u64| u2 != user implies (self.has_user(u2) <==> old(
                        self,
                    ).has_user(u2)) && self.score_of(u2) == old(self).score_of(u2) by {
                        if old(self).has_user(u2) {
                            let i = choose|i: int| 0 <= i < n && (#[trigger] pre[i]).user == u2;
                            old(self).lemma_score_at(i);
                            let i2 = if i < k {
                                i
                            } else {
                                i - 1
                            };
                            assert(post[i2].user == u2 && post[i2].score == pre[i].score);
                            self.lemma_score_at(i2);
                        }
                        if self.has_user(u2) {
                            let i = choose|i: int| 0 <= i < post.len() && (#[trigger] post[i]).user
                                == u2;
                            self.lemma_score_at(i);
                            let i0 = if i < k {
                                i
                            } else {
                                i + 1
                            };
                            assert(pre[i0].user == u2 && pre[i0].score == post[i].score);
                            old(self).lemma_score_at(i0);
                        }
                    }
                }
                self.rows[self.rows.len() - 1].score
            },
            None => {
                let new_row = ScoreRow { user, score: delta };
                self.rows.push(new_row);
                proof {
                    let pre = old(self).rows@;
                    let post = self.rows@;
                    let n = pre.len() as int;
                    assert(post =~= pre.push(new_row));
                    assert(self.wf()) by {
                        assert(forall|i: int| 0 <= i < n ==> #[trigger] post[i] == pre[i]);
                        assert(forall|i: int|
                            0 <= i < n ==> (#[trigger] post[i]).user != user) by {
                            assert(forall|i: int|
                                0 <= i < n ==> (#[trigger] pre[i]).user != user);
                        }
                    }
                    assert(self.has_user(user)) by {
                        assert(post[n].user == user);
                    }
                    self.lemma_score_at(n);
                    assert forall|u2: u64| u2 != user implies (self.has_user(u2) <==> old(
                        self,
                    ).has_user(u2)) && self.score_of(u2) == old(self).score_of(u2) by {
                        if old(self).has_user(u2) {
                            let i = choose|i: int| 0 <= i < n && (#[trigger] pre[i]).user == u2;
                            old(self).lemma_score_at(i);
                            assert(post[i].user == u2 && post[i].score == pre[i].score);
                            self.lemma_score_at(i);
                        }
                        if self.has_user(u2) {
                            let i = choose|i: int| 0 <= i < post.len() && (#[trigger] post[i]).user
                                == u2;
                            self.lemma_score_at(i);
                            assert(i < n) by {
                                assert(post[n].user == user);
                            }
                            assert(pre[i].user == u2 && pre[i].score == post[i].score);
                            old(self).lemma_score_at(i);
                        }
                    }
                }
                self.rows[self.rows.len() - 1].score
            },
        }
    }

    /// The user's cumulative score, their standing, and how many players
    /// there are.  The standing of a present user is the number of
    /// players scoring at least as much, so tied users share the rank at
    /// the bottom of their group.  An unknown user reads as all zeros.
    pub fn get_score(&self, user: u64) -> (r: (i64, usize, usize))
        requires
            self.wf(),
        ensures
            !self.has_user(user) ==> r == (0i64, 0usize, 0usize),
            self.has_user(user) ==> r.0 == self.score_of(user) && r.1 as int == count_ge(
                self.rows@,
                self.score_of(user),
            ) && r.2 == self.rows@.len(),
    {
        let found = self.find_user_index(user);
        match found {
            None => (0, 0, 0),
            Some(k) => {
                proof {
                    self.lemma_score_at(k as int);
                }
                let s = self.rows[k].score;
                let n = self.rows.len();
                let mut cnt: usize = 0;
                let mut i: usize = 0;
                while i < n
                    invariant
                        n == self.rows@.len(),
                        0 <= i <= n,
                        cnt <= i,
                        cnt as int == count_ge(self.rows@.take(i as int), s as int),
                    decreases n - i,
                {
                    if self.rows[i].score >= s {
                        cnt += 1;
                    }
                    proof {
                        assert(self.rows@.take(i + 1).drop_last() =~= self.rows@.take(i as int));
                        assert(self.rows@.take(i + 1).last() == self.rows@[i as int]);
                    }
                    i += 1;
                }
                proof {
                    assert(self.rows@.take(n as int) =~= self.rows@);
                }
                (s, cnt, n)
            },
        }
    }

    /// The leaderboard: the first `limit` rows in leaderboard order.
    /// The result is sorted strictly by `outranks`, holds only rows of
    /// the ledger, and every row kept outranks every row left out.
    pub fn get_top(&self, limit: usize) -> (top: Vec<ScoreRow>)
        requires
            self.wf(),
        ensures
            top@.len() == min(limit as int, self.rows@.len() as int),
            forall|i: int, j: int| 0 <= i < j < top@.len() ==> outranks(top@[i], top@[j]),
            forall|i: int| 0 <= i < top@.len() ==> self.rows@.contains(#[trigger] top@[i]),
            forall|i: int, r: ScoreRow|
                #![trigger top@[i], self.rows@.contains(r)]
                0 <= i < top@.len() && self.rows@.contains(r) && !top@.contains(r) ==> outranks(
                    top@[i],
                    r,
                ),
    {
        let n = self.rows.len();
        let mut work: Vec<ScoreRow> = Vec::new();
        let mut i: usize = 0;
        while i < n
            invariant
                n == self.rows@.len(),
                0 <= i <= n,
                work@ =~= self.rows@.take(i as int),
            decreases n - i,
        {
            work.push(self.rows[i]);
            proof {
                assert(work@ =~= self.rows@.take(i + 1));
            }
            i += 1;
        }
        proof {
            assert(self.rows@.take(n as int) =~= self.rows@);
        }
        let mut top: Vec<ScoreRow> = Vec::new();
        while top.len() < limit && work.len() > 0
            invariant
                self.wf(),
                top@.len() + work@.len() == self.rows@.len(),
                top@.len() <= limit,
                forall|i: int| 0 <= i < top@.len() ==> self.rows@.contains(#[trigger] top@[i]),
                forall|j: int| 0 <= j < work@.len() ==> self.rows@.contains(#[trigger] work@[j]),
                forall|r: ScoreRow|
                    self.rows@.contains(r) ==> top@.contains(r) || work@.contains(r),
                forall|i: int, j: int|
                    0 <= i < top@.len() && 0 <= j < work@.len() ==> (#[trigger] top@[i]).user != (
                    #[trigger] work@[j]).user,
                forall|i: int, j: int|
                    0 <= i < j < top@.len() ==> (#[trigger] top@[i]).user != (
                    #[trigger] top@[j]).user,
                forall|i: int, j: int|
                    0 <= i < j < work@.len() ==> (#[trigger] work@[i]).user != (
                    #[trigger] work@[j]).user,
                forall|i: int, j: int| 0 <= i < j < top@.len() ==> outranks(top@[i], top@[j]),
                forall|i: int, j: int|
                    0 <= i < top@.len() && 0 <= j < work@.len() ==> outranks(
                        #[trigger] top@[i],
                        #[trigger] work@[j],
                    ),
            decreases work@.len(),
        {
            let mut m: usize = 0;
            let mut t: usize = 1;
            while t < work.len()
                invariant
                    0 <= m < work@.len(),
                    1 <= t <= work@.len(),
                    m < t,
                    forall|j: int|
                        0 <= j < t && j != m ==> outranks(work@[m as int], #[trigger] work@[j]),
                    forall|i: int, j: int|
                        0 <= i < j < work@.len() ==> (#[trigger] work@[i]).user != (
                        #[trigger] work@[j]).user,
                decreases work@.len() - t,
            {
                let better = work[t].score > work[m].score || (work[t].score == work[m].score
                    && work[t].user < work[m].user);
                if better {
                    m = t;
                }
                t += 1;
            }
            let ghost pre_work = work@;
            let ghost pre_top = top@;
            let x = work.remove(m);
            top.push(x);
            proof {
                pre_work.remove_ensures(m as int);
                assert(top@ =~= pre_top.push(x));
                assert(forall|j: int|
                    0 <= j < work@.len() ==> #[trigger] work@[j] == (if j < m {
                        pre_work[j]
                    } else {
                        pre_work[j + 1]
                    }));
                assert forall|r: ScoreRow|
                    self.rows@.contains(r) implies top@.contains(r) || work@.contains(r) by {
                    if pre_top.contains(r) {
                        let i = choose|i: int| 0 <= i < pre_top.len() && pre_top[i] == r;
                        assert(top@[i] == r);
                    } else if pre_work.contains(r) {
                        let j = choose|j: int| 0 <= j < pre_work.len() && pre_work[j] == r;
                        if j == m {
                            assert(top@[pre_top.len() as int] == r);
                        } else if j < m {
                            assert(work@[j] == r);
                        } else {
                            assert(work@[j - 1] == r);
                        }
                    }
                }
                assert forall|i: int, j: int|
                    0 <= i < top@.len() && 0 <= j < work@.len() implies outranks(
                    #[trigger] top@[i],
                    #[trigger] work@[j],
                ) by {
                    let j0 = if j < m {
                        j
                    } else {
                        j + 1
                    };
                    assert(work@[j] == pre_work[j0]);
                    if i < pre_top.len() {
                        assert(outranks(pre_top[i], pre_work[j0]));
                    } else {
                        assert(top@[i] == x);
                        assert(outranks(pre_work[m as int], pre_work[j0]));
                    }
                }
            }
        }
        proof {
            assert forall|i: int, r: ScoreRow|
                #![trigger top@[i], self.rows@.contains(r)]
                0 <= i < top@.len() && self.rows@.contains(r) && !top@.contains(r) implies outranks(
                top@[i],
                r,
            ) by {
                assert(work@.contains(r));
                let j = choose|j: int| 0 <= j < work@.len() && work@[j] == r;
                assert(outranks(top@[i], work@[j]));
            }
        }
        top
    }
}

} // verus!
