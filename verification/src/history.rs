//! The history tracker: two ordered stacks of URLs (visited, and
//! forward-undone) together with the suppression flag that keeps
//! programmatic navigations from being re-recorded as user ones.

use vstd::prelude::*;

verus! {

/// Mathematical model of the tracker: the visited pages oldest first (the
/// last element is the page on display), the undone pages most recently
/// undone first, and the suppression flag.
#[verifier::ext_equal]
pub struct HistoryModel {
    pub visited: Seq<String>,
    pub undone: Seq<String>,
    pub suppress: bool,
}

/// A page-change notification: suppressed, it only consumes the flag;
/// otherwise it appends the page to `visited` and discards any forward
/// branch (linear history, no branching tree).
pub open spec fn record_visit_m(m: HistoryModel, url: String) -> HistoryModel {
    if m.suppress {
        HistoryModel { suppress: false, ..m }
    } else {
        HistoryModel { visited: m.visited.push(url), undone: Seq::empty(), suppress: false }
    }
}

/// Going back: below two visited pages nothing happens; otherwise the
/// displayed page moves to the front of `undone` and the flag is set.
pub open spec fn go_back_m(m: HistoryModel) -> HistoryModel {
    if m.visited.len() <= 1 {
        m
    } else {
        HistoryModel {
            visited: m.visited.drop_last(),
            undone: seq![m.visited.last()] + m.undone,
            suppress: true,
        }
    }
}

/// Going forward: with nothing undone nothing happens; otherwise the most
/// recently undone page returns to the top of `visited` and the flag is set.
pub open spec fn go_forward_m(m: HistoryModel) -> HistoryModel {
    if m.undone.len() == 0 {
        m
    } else {
        HistoryModel {
            visited: m.visited.push(m.undone.first()),
            undone: m.undone.drop_first(),
            suppress: true,
        }
    }
}

/// Marks the next page-change notification as self-inflicted (refresh path).
pub open spec fn suppress_m(m: HistoryModel) -> HistoryModel {
    HistoryModel { suppress: true, ..m }
}

/// The page that going back lands on, if any.
pub open spec fn back_result(m: HistoryModel) -> Option<String> {
    if m.visited.len() <= 1 {
        None
    } else {
        Some(m.visited[m.visited.len() - 2])
    }
}

/// The page that going forward lands on, if any.
pub open spec fn forward_result(m: HistoryModel) -> Option<String> {
    if m.undone.len() == 0 {
        None
    } else {
        Some(m.undone.first())
    }
}

pub struct HistoryState {
    pub visited: Vec<String>,
    pub undone: Vec<String>,
    pub suppress_next_push: bool,
}

impl View for HistoryState {
    type V = HistoryModel;

    open spec fn view(&self) -> HistoryModel {
        HistoryModel {
            visited: self.visited@,
            undone: self.undone@,
            suppress: self.suppress_next_push,
        }
    }
}

impl HistoryState {
    /// The tracker is seeded with the start page and never empties.
    pub open spec fn wf(self) -> bool {
        self.visited@.len() >= 1
    }

    pub fn new(start_page: String) -> (h: Self)
        ensures
            h.wf(),
            h@.visited == seq![start_page],
            h@.undone == Seq::<String>::empty(),
            !h@.suppress,
    {
        let mut visited: Vec<String> = Vec::new();
        visited.push(start_page);
        proof {
            assert(visited@ =~= seq![start_page]);
        }
        HistoryState { visited, undone: Vec::new(), suppress_next_push: false }
    }

    /// The page currently on display: the top of the visited stack.
    pub fn current(&self) -> (r: &String)
        requires
            self.wf(),
        ensures
            *r == self@.visited.last(),
    {
        &self.visited[self.visited.len() - 1]
    }

    pub fn record_visit(&mut self, url: String)
        requires
            old(self).wf(),
        ensures
            final(self).wf(),
            final(self)@ == record_visit_m(old(self)@, url),
    {
        if self.suppress_next_push {
            self.suppress_next_push = false;
            proof {
                assert(self@ =~= record_visit_m(old(self)@, url));
            }
        } else {
            self.visited.push(url);
            self.undone.clear();
            proof {
                assert(self@ =~= record_visit_m(old(self)@, url));
            }
        }
    }

    pub fn go_back(&mut self) -> (r: Option<String>)
        requires
            old(self).wf(),
        ensures
            final(self).wf(),
            final(self)@ == go_back_m(old(self)@),
            r == back_result(old(self)@),
    {
        if self.visited.len() <= 1 {
            None
        } else {
            let top = self.visited.pop().unwrap();
            self.undone.insert(0, top);
            self.suppress_next_push = true;
            let cur = self.visited[self.visited.len() - 1].clone();
            proof {
                assert(self.visited@ =~= old(self)@.visited.drop_last());
                assert(self.undone@ =~= seq![old(self)@.visited.last()] + old(self)@.undone);
                assert(self@ =~= go_back_m(old(self)@));
            }
            Some(cur)
        }
    }

    pub fn go_forward(&mut self) -> (r: Option<String>)
        requires
            old(self).wf(),
        ensures
            final(self).wf(),
            final(self)@ == go_forward_m(old(self)@),
            r == forward_result(old(self)@),
    {
        if self.undone.len() == 0 {
            None
        } else {
            let url = self.undone.remove(0);
            self.visited.push(url.clone());
            self.suppress_next_push = true;
            proof {
                assert(self.undone@ =~= old(self)@.undone.drop_first());
                assert(self@ =~= go_forward_m(old(self)@));
            }
            Some(url)
        }
    }

    /// Marks the next page-change notification as self-inflicted.
    pub fn mark_suppressed(&mut self)
        requires
            old(self).wf(),
        ensures
            final(self).wf(),
            final(self)@ == suppress_m(old(self)@),
    {
        self.suppress_next_push = true;
    }
}

/// Folds a whole sequence of page-change notifications over the tracker.
pub open spec fn record_all_m(m: HistoryModel, urls: Seq<String>) -> HistoryModel
    decreases urls.len(),
{
    if urls.len() == 0 {
        m
    } else {
        record_all_m(record_visit_m(m, urls.first()), urls.drop_first())
    }
}

/// Law: starting unsuppressed, any sequence of page-change notifications
/// appends exactly the notified pages, in call order, to `visited`, and
/// leaves `undone` empty as soon as one notification has arrived.
pub proof fn lemma_record_all_unsuppressed(m: HistoryModel, urls: Seq<String>)
    requires
        !m.suppress,
    ensures
        record_all_m(m, urls).visited == m.visited + urls,
        !record_all_m(m, urls).suppress,
        urls.len() > 0 ==> record_all_m(m, urls).undone == Seq::<String>::empty(),
    decreases urls.len(),
{
    if urls.len() == 0 {
        assert(m.visited + urls =~= m.visited);
    } else {
        let m1 = record_visit_m(m, urls.first());
        lemma_record_all_unsuppressed(m1, urls.drop_first());
        assert(m1.visited + urls.drop_first() =~= m.visited + urls);
    }
}

/// Law: with at least two visited pages, going back and then immediately
/// forward restores both stacks, and forward lands on the page that was on
/// display before going back.
pub proof fn lemma_back_then_forward(m: HistoryModel)
    requires
        m.visited.len() >= 2,
    ensures
        go_forward_m(go_back_m(m)).visited == m.visited,
        go_forward_m(go_back_m(m)).undone == m.undone,
        forward_result(go_back_m(m)) == Some(m.visited.last()),
{
    let b = go_back_m(m);
    assert(go_forward_m(b).visited =~= m.visited);
    assert(go_forward_m(b).undone =~= m.undone);
}

/// Law: going back with a single visited page is a no-op: it returns
/// nothing and mutates nothing.
pub proof fn lemma_back_at_root_is_noop(m: HistoryModel)
    requires
        m.visited.len() == 1,
    ensures
        go_back_m(m) == m,
        back_result(m) is None,
{
}

/// Law: once a new branch is taken after going forward, the forward history
/// is discarded.  The notification caused by the forward itself is
/// suppressed; the next, user-driven one empties `undone`.
pub proof fn lemma_new_branch_discards_forward(m: HistoryModel, page: String, fresh: String)
    requires
        m.undone.len() > 0,
    ensures
        ({
            let after_forward = go_forward_m(m);
            let after_notify = record_visit_m(after_forward, page);
            let after_fresh = record_visit_m(after_notify, fresh);
            &&& after_notify.visited == after_forward.visited
            &&& after_fresh.undone == Seq::<String>::empty()
            &&& after_fresh.visited == m.visited.push(m.undone.first()).push(fresh)
        }),
{
}

} // verus!
