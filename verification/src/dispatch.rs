//! The event dispatcher: the single serialized consumer of the event queue.
//! It owns the history tracker and the fallback state, and turns each event
//! into a new state plus a list of commands for the navigation and address
//! sinks.  Producers only ever enqueue; processing one event at a time is
//! the concurrency-correctness mechanism.

use vstd::prelude::*;
use vstd::string::StringExecFns;
use crate::fallback::{NextAction, resolve, substituted};
use crate::history::{
    HistoryModel, HistoryState, back_result, forward_result, go_back_m, go_forward_m,
    record_visit_m, suppress_m,
};

verus! {

/// The event taxonomy: everything the chrome reacts to, whether it came
/// from a user control or from the renderer.
#[derive(Clone, Copy, Debug, PartialEq, Eq)]
pub enum EventKind {
    BackRequested,
    ForwardRequested,
    RefreshRequested,
    PageChanged,
    NavigateTo,
    LoadFailed,
    LoginRequested,
}

/// One event; `url` is empty for the kinds that carry no URL.
#[derive(Debug)]
pub struct Event {
    pub kind: EventKind,
    pub url: String,
}

/// A command for the collaborators outside the core: the navigation sink,
/// the address field, and the (placeholder) login dialog.
#[derive(Debug, PartialEq)]
pub enum Command {
    /// Ask the renderer to load this URL.
    Load(String),
    /// Ask the renderer to reload the displayed page.
    Reload,
    /// Reflect this URL in the address field.
    SetAddress(String),
    /// Open the credential-entry dialog (out of scope beyond opening it).
    ShowLogin,
    /// The fallback chain is exhausted and the home location could not be
    /// resolved: report a failure of last resort.
    ReportHomeFailure,
}

/// Commands that a back request emits: nothing at the root, otherwise a
/// load of the page landed on and an address-field update.
pub open spec fn back_cmds(m: HistoryModel) -> Seq<Command> {
    match back_result(m) {
        None => Seq::empty(),
        Some(u) => seq![Command::Load(u), Command::SetAddress(u)],
    }
}

/// Commands that a forward request emits.
pub open spec fn forward_cmds(m: HistoryModel) -> Seq<Command> {
    match forward_result(m) {
        None => Seq::empty(),
        Some(u) => seq![Command::Load(u), Command::SetAddress(u)],
    }
}

/// Relies on home::home_dir: the user's home directory as the platform and
/// environment report it, or nothing when none can be determined.  The
/// result depends on the environment, so nothing is promised of its value.
#[verifier::external_body]
fn home_dir_string() -> (r: Option<String>) {
    match home::home_dir() {
        None => None,
        Some(p) => Some(p.display().to_string()),
    }
}

/// The last step of the fallback chain, applied to whatever the home lookup
/// returned: a jump to the home location as a file URL, or the report that
/// nothing of last resort is left.
pub fn home_action(home: Option<String>) -> (c: Command)
    ensures
        home matches Some(h) ==> (c matches Command::Load(u) && u@ == "file://"@ + h@),
        home is None ==> c is ReportHomeFailure,
{
    match home {
        Some(h) => {
            let mut s = String::from_str("file://");
            s.append(h.as_str());
            Command::Load(s)
        },
        None => Command::ReportHomeFailure,
    }
}

/// State owned exclusively by the dispatch loop: the history tracker, the
/// configured search template, and the most recent substitute URL (empty
/// until a load has failed).
pub struct Dispatcher {
    pub history: HistoryState,
    pub template: String,
    pub last_fallback: String,
}

impl Dispatcher {
    pub open spec fn wf(self) -> bool {
        self.history.wf()
    }

    pub fn new(start_page: String, search_template: String) -> (d: Self)
        ensures
            d.wf(),
            d.history@.visited == seq![start_page],
            d.history@.undone == Seq::<String>::empty(),
            !d.history@.suppress,
            d.template == search_template,
            d.last_fallback@ == Seq::<char>::empty(),
    {
        Dispatcher {
            history: HistoryState::new(start_page),
            template: search_template,
            last_fallback: String::new(),
        }
    }

    /// Processes one event to completion: mutates the owned state and
    /// returns the commands to issue, in order.  The contract pins one
    /// transition per event kind.
    pub fn handle_event(&mut self, ev: Event) -> (cmds: Vec<Command>)
        requires
            old(self).wf(),
        ensures
            final(self).wf(),
            final(self).template == old(self).template,
            ev.kind is BackRequested ==> final(self).history@ == go_back_m(old(self).history@)
                && final(self).last_fallback == old(self).last_fallback && cmds@ == back_cmds(
                old(self).history@,
            ),
            ev.kind is ForwardRequested ==> final(self).history@ == go_forward_m(
                old(self).history@,
            ) && final(self).last_fallback == old(self).last_fallback && cmds@ == forward_cmds(
                old(self).history@,
            ),
            ev.kind is RefreshRequested ==> final(self).history@ == suppress_m(old(self).history@)
                && final(self).last_fallback == old(self).last_fallback && cmds@ == seq![
                Command::Reload,
            ],
            ev.kind is PageChanged ==> final(self).history@ == record_visit_m(
                old(self).history@,
                ev.url,
            ) && final(self).last_fallback == old(self).last_fallback && cmds@ == (
            if old(self).history@.suppress {
                Seq::<Command>::empty()
            } else {
                seq![Command::SetAddress(ev.url)]
            }),
            ev.kind is NavigateTo ==> final(self).history@ == old(self).history@
                && final(self).last_fallback == old(self).last_fallback && cmds@ == seq![
                Command::Load(ev.url),
            ],
            ev.kind is LoadFailed && ev.url@ == old(self).last_fallback@ ==> final(self).history@
                == old(self).history@ && final(self).last_fallback == old(self).last_fallback
                && cmds@.len() == 1 && (cmds@[0] is Load || cmds@[0] is ReportHomeFailure) && (
            cmds@[0] matches Command::Load(u) ==> u@.len() >= 7 && u@.subrange(0, 7)
                == "file://"@),
            ev.kind is LoadFailed && ev.url@ != old(self).last_fallback@ ==> final(self).history@
                == old(self).history@ && final(self).last_fallback@ == substituted(
                old(self).template@,
                ev.url@,
            ) && cmds@ == seq![Command::Load(final(self).last_fallback)],
            ev.kind is LoginRequested ==> final(self).history@ == old(self).history@
                && final(self).last_fallback == old(self).last_fallback && cmds@ == seq![
                Command::ShowLogin,
            ],
    {
        let mut cmds: Vec<Command> = Vec::new();
        match ev.kind {
            EventKind::BackRequested => {
                match self.history.go_back() {
                    Some(url) => {
                        cmds.push(Command::Load(url.clone()));
                        cmds.push(Command::SetAddress(url));
                        proof {
                            assert(cmds@ =~= back_cmds(old(self).history@));
                        }
                    },
                    None => {
                        proof {
                            assert(cmds@ =~= back_cmds(old(self).history@));
                        }
                    },
                }
            },
            EventKind::ForwardRequested => {
                match self.history.go_forward() {
                    Some(url) => {
                        cmds.push(Command::Load(url.clone()));
                        cmds.push(Command::SetAddress(url));
                        proof {
                            assert(cmds@ =~= forward_cmds(old(self).history@));
                        }
                    },
                    None => {
                        proof {
                            assert(cmds@ =~= forward_cmds(old(self).history@));
                        }
                    },
                }
            },
            EventKind::RefreshRequested => {
                self.history.mark_suppressed();
                cmds.push(Command::Reload);
                proof {
                    assert(cmds@ =~= seq![Command::Reload]);
                }
            },
            EventKind::PageChanged => {
                let was_suppressed = self.history.suppress_next_push;
                self.history.record_visit(ev.url.clone());
                if !was_suppressed {
                    cmds.push(Command::SetAddress(ev.url));
                    proof {
                        assert(cmds@ =~= seq![Command::SetAddress(ev.url)]);
                    }
                }
            },
            EventKind::NavigateTo => {
                cmds.push(Command::Load(ev.url));
                proof {
                    assert(cmds@ =~= seq![Command::Load(ev.url)]);
                }
            },
            EventKind::LoadFailed => {
                let action = resolve(&ev.url, &self.template, &self.last_fallback);
                match action {
                    NextAction::GoHome => {
                        let hd = home_dir_string();
                        let ghost ghd = hd;
                        let c = home_action(hd);
                        let ghost gc = c;
                        cmds.push(c);
                        proof {
                            reveal_strlit("file://");
                            assert(cmds@ =~= seq![gc]);
                            match ghd {
                                Some(h) => {
                                    match gc {
                                        Command::Load(u) => {
                                            assert(u@ == "file://"@ + h@);
                                            assert(u@.subrange(0, 7) =~= "file://"@);
                                        },
                                        _ => {
                                            assert(false);
                                        },
                                    }
                                },
                                None => {},
                            }
                        }
                    },
                    NextAction::TrySubstitute(sub) => {
                        self.last_fallback = sub;
                        cmds.push(Command::Load(self.last_fallback.clone()));
                        proof {
                            assert(cmds@ =~= seq![Command::Load(self.last_fallback)]);
                        }
                    },
                }
            },
            EventKind::LoginRequested => {
                cmds.push(Command::ShowLogin);
                proof {
                    assert(cmds@ =~= seq![Command::ShowLogin]);
                }
            },
        }
        cmds
    }
}

} // verus!
