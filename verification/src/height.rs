use vstd::prelude::*;

verus! {

/// Whether the height gate fires for a request at `height` when the builder
/// was last started at `cursor`: a "start height" command is issued exactly
/// when the requested height differs from the current one.
pub open spec fn gate_fires(cursor: Option<u64>, height: u64) -> bool {
    cursor != Some(height)
}

/// The heights for which a "start height" command is issued when the
/// requests in `reqs` hit the height gate in order, the cursor standing at `cursor`
/// beforehand.
pub open spec fn issued_starts(cursor: Option<u64>, reqs: Seq<u64>) -> Seq<u64>
    decreases reqs.len(),
{
    if reqs.len() == 0 {
        Seq::empty()
    } else {
        let head = reqs[0];
        let rest = issued_starts(Some(head), reqs.drop_first());
        if gate_fires(cursor, head) {
            seq![head] + rest
        } else {
            rest
        }
    }
}

/// Tracks the height currently active at the builder. The orchestrator is
/// the single writer: consensus works on one height until it is done and
/// then moves on, never returning to an old height.
pub struct HeightCursor {
    current: Option<u64>,
}

impl HeightCursor {
    /// The height last announced to the builder, if any.
    pub closed spec fn view(&self) -> Option<u64> {
        self.current
    }

    /// A fresh cursor: no height has been started yet.
    pub fn new() -> (c: Self)
        ensures
            c@ is None,
    {
        HeightCursor { current: None }
    }

    /// The read-before-write gate: reports whether a "start height" command
    /// must be issued to the builder for `height`, and moves the cursor
    /// there. Repeated requests at the same height issue nothing.
    pub fn advance(&mut self, height: u64) -> (issue: bool)
        ensures
            issue == gate_fires(old(self)@, height),
            final(self)@ == Some(height),
    {
        let issue = match self.current {
            Some(h) => h != height,
            None => true,
        };
        self.current = Some(height);
        issue
    }
}

proof fn lemma_issued_starts(cursor: Option<u64>, reqs: Seq<u64>)
    requires
        forall|i: int, j: int| 0 <= i <= j < reqs.len() ==> reqs[i] <= reqs[j],
        cursor matches Some(c) ==> forall|i: int| 0 <= i < reqs.len() ==> c <= reqs[i],
    ensures
        forall|a: int, b: int|
            0 <= a < b < issued_starts(cursor, reqs).len() ==> issued_starts(cursor, reqs)[a]
                < issued_starts(cursor, reqs)[b],
        forall|h: u64|
            #[trigger] issued_starts(cursor, reqs).contains(h) <==> (reqs.contains(h) && cursor
                != Some(h)),
    decreases reqs.len(),
{
    let iss = issued_starts(cursor, reqs);
    if reqs.len() == 0 {
        assert forall|h: u64| #[trigger] iss.contains(h) implies false by {
            let i = choose|i: int| 0 <= i < iss.len() && iss[i] == h;
        }
        assert forall|h: u64| #[trigger] reqs.contains(h) implies false by {
            let i = choose|i: int| 0 <= i < reqs.len() && reqs[i] == h;
        }
    } else {
        let head = reqs[0];
        let rest = reqs.drop_first();
        let iss_rest = issued_starts(Some(head), rest);
        assert forall|i: int| 0 <= i < rest.len() implies head <= rest[i] by {
            assert(reqs[0] <= reqs[i + 1]);
        }
        lemma_issued_starts(Some(head), rest);
        assert forall|h: u64| #[trigger] rest.contains(h) implies reqs.contains(h) && head
            <= h by {
            let i = choose|i: int| 0 <= i < rest.len() && rest[i] == h;
            assert(reqs[i + 1] == h);
        }
        assert forall|h: u64| #[trigger] iss_rest.contains(h) implies h > head by {
            assert(rest.contains(h) && h != head);
        }
        if gate_fires(cursor, head) {
            assert(iss == seq![head] + iss_rest);
            assert(iss[0] == head);
            assert forall|b: int| 1 <= b < iss.len() implies iss[b] == iss_rest[b - 1] by {}
            assert forall|a: int, b: int| 0 <= a < b < iss.len() implies iss[a] < iss[b] by {
                if a == 0 {
                    assert(iss_rest.contains(iss_rest[b - 1]));
                } else {
                    assert(iss_rest[a - 1] < iss_rest[b - 1]);
                }
            }
            assert forall|h: u64| #[trigger] iss.contains(h) implies (reqs.contains(h) && cursor
                != Some(h)) by {
                let i = choose|i: int| 0 <= i < iss.len() && iss[i] == h;
                if i == 0 {
                    assert(reqs[0] == h);
                    assert(reqs.contains(h));
                } else {
                    assert(iss_rest[i - 1] == h);
                    assert(iss_rest.contains(h));
                    match cursor {
                        Some(c) => {
                            assert(c <= reqs[0]);
                            assert(h > head);
                        },
                        None => {},
                    }
                }
            }
            assert forall|h: u64| reqs.contains(h) && cursor != Some(h) implies #[trigger] iss
                .contains(h) by {
                let i = choose|i: int| 0 <= i < reqs.len() && reqs[i] == h;
                if i == 0 {
                    assert(iss[0] == h);
                } else {
                    assert(rest[i - 1] == h);
                    assert(rest.contains(h));
                    if h == head {
                        assert(iss[0] == h);
                    } else {
                        assert(iss_rest.contains(h));
                        let j = choose|j: int| 0 <= j < iss_rest.len() && iss_rest[j] == h;
                        assert(iss[j + 1] == h);
                    }
                }
            }
        } else {
            assert(cursor == Some(head));
            assert(iss == iss_rest);
            assert forall|h: u64| reqs.contains(h) && cursor != Some(h) implies #[trigger] iss
                .contains(h) by {
                let i = choose|i: int| 0 <= i < reqs.len() && reqs[i] == h;
                assert(h != head);
                assert(i != 0);
                assert(rest[i - 1] == h);
                assert(rest.contains(h));
            }
            assert forall|h: u64| #[trigger] iss.contains(h) implies (reqs.contains(h) && cursor
                != Some(h)) by {
                assert(rest.contains(h) && h != head);
            }
        }
    }
}

/// Law: for any non-decreasing sequence of requested heights, the height gate
/// issues the "start height" command exactly once per distinct height, in
/// increasing order — the issued heights are strictly increasing and are
/// exactly the requested ones.
pub proof fn lemma_start_height_once_per_height(reqs: Seq<u64>)
    requires
        forall|i: int, j: int| 0 <= i <= j < reqs.len() ==> reqs[i] <= reqs[j],
    ensures
        forall|a: int, b: int|
            0 <= a < b < issued_starts(None, reqs).len() ==> issued_starts(None, reqs)[a]
                < issued_starts(None, reqs)[b],
        forall|h: u64| #[trigger] issued_starts(None, reqs).contains(h) <==> reqs.contains(h),
{
    lemma_issued_starts(None, reqs);
}

} // verus!
