//! The consumer's side of the dispatcher: the commands that a handle sends,
//! and the exchange of messages by which a request gets its reply.

use crate::event::InputEvent;
use crate::grid::Platform;
use crate::message::{Action, Cmd, Msg, Query, Reply};
use crate::text::same_text;
use vstd::prelude::*;

verus! {

/// What a request is waiting for.
#[derive(Clone, Copy, Debug, PartialEq, Eq, Structural)]
pub enum Wait {
    /// The response to the query.
    Response,
    /// Whether the screen is in raw mode.
    IsRaw,
    /// The device's report of the cursor position; `true` when the screen
    /// was put into raw mode for it and has to be cooked again.
    Position(bool),
}

/// How far a request has come.
#[derive(Debug)]
pub enum Progress {
    Pending(Wait),
    Done(Reply),
}

/// One turn of a request: the commands to send now, in order, and what
/// comes next.
#[derive(Debug)]
pub struct Turn {
    pub send: Vec<Cmd>,
    pub next: Progress,
}

/// The identity of one consumer.
#[derive(Clone, Copy, Debug, PartialEq, Eq, Structural)]
pub struct EventHandle {
    pub id: usize,
    pub platform: Platform,
}

/// Another name for a handle.
pub type EventReceiver = EventHandle;

/// The commands that open a request of emitter `id`.
pub open spec fn opening_cmds(id: usize, platform: Platform, query: Seq<char>) -> Seq<Cmd> {
    if query == "coord"@ {
        seq![Cmd::Request(Query::Coord(id))]
    } else if query == "getch"@ {
        seq![Cmd::Request(Query::GetCh(id))]
    } else if query == "size"@ {
        seq![Cmd::Request(Query::Size(id))]
    } else if query == "screen"@ {
        seq![Cmd::Request(Query::Screen(id))]
    } else if query == "pos"@ {
        match platform {
            Platform::Ansi => seq![Cmd::Request(Query::IsRaw(id))],
            Platform::Console => seq![Cmd::Request(Query::Pos(id))],
        }
    } else {
        Seq::empty()
    }
}

/// What a request waits for after its opening commands. A query that is
/// not known is done at once, with the empty reply.
pub open spec fn opening_next(platform: Platform, query: Seq<char>) -> Progress {
    if query == "coord"@ || query == "getch"@ || query == "size"@ || query == "screen"@ {
        Progress::Pending(Wait::Response)
    } else if query == "pos"@ {
        match platform {
            Platform::Ansi => Progress::Pending(Wait::IsRaw),
            Platform::Console => Progress::Pending(Wait::Response),
        }
    } else {
        Progress::Done(Reply::Empty)
    }
}

/// The commands that a request of emitter `id` sends when `msg` arrives
/// while it waits for `wait`.
pub open spec fn reply_cmds(id: usize, wait: Wait, msg: Msg) -> Seq<Cmd> {
    match (wait, msg) {
        (Wait::IsRaw, Msg::Response(Reply::IsRaw(raw))) => if raw {
            seq![Cmd::Request(Query::Pos(id))]
        } else {
            seq![Cmd::Signal(Action::Raw), Cmd::Request(Query::Pos(id))]
        },
        (Wait::Position(cook), Msg::Received(InputEvent::CursorPos(_, _))) => if cook {
            seq![Cmd::Signal(Action::Cook)]
        } else {
            Seq::empty()
        },
        _ => Seq::empty(),
    }
}

/// What a request waits for after `msg` arrived while it waited for
/// `wait`. A message that is not the awaited one changes nothing.
pub open spec fn reply_next(wait: Wait, msg: Msg) -> Progress {
    match (wait, msg) {
        (Wait::Response, Msg::Response(reply)) => Progress::Done(reply),
        (Wait::IsRaw, Msg::Response(Reply::IsRaw(raw))) => Progress::Pending(Wait::Position(!raw)),
        (Wait::Position(_), Msg::Received(InputEvent::CursorPos(col, row))) => Progress::Done(
            Reply::Pos(col, row),
        ),
        _ => Progress::Pending(wait),
    }
}

impl EventHandle {
    pub fn new(id: usize, platform: Platform) -> (r: EventHandle)
        ensures
            r == (EventHandle { id, platform }),
    {
        EventHandle { id, platform }
    }

    /// The command that stops input to this handle.
    pub fn suspend(&self) -> (r: Cmd)
        ensures
            r == Cmd::Suspend(self.id),
    {
        Cmd::Suspend(self.id)
    }

    /// The command that lets input reach this handle again.
    pub fn transmit(&self) -> (r: Cmd)
        ensures
            r == Cmd::Transmit(self.id),
    {
        Cmd::Transmit(self.id)
    }

    /// The command that takes this handle out of the registry.
    pub fn stop(&self) -> (r: Cmd)
        ensures
            r == Cmd::Stop(self.id),
    {
        Cmd::Stop(self.id)
    }

    /// The command that asks for the input lock.
    pub fn lock(&self) -> (r: Cmd)
        ensures
            r == Cmd::Lock(self.id),
    {
        Cmd::Lock(self.id)
    }

    /// The command that gives the input lock back.
    pub fn unlock(&self) -> (r: Cmd)
        ensures
            r == Cmd::Unlock,
    {
        Cmd::Unlock
    }

    /// The command that applies `action`.
    pub fn signal(&self, action: Action) -> (r: Cmd)
        ensures
            r == Cmd::Signal(action),
    {
        Cmd::Signal(action)
    }

    /// Of the messages that were waiting, the last; the others are dropped.
    pub fn poll_latest_async(&self, pending: Vec<Msg>) -> (r: Option<Msg>)
        ensures
            r == if pending@.len() > 0 {
                Some(pending@.last())
            } else {
                None
            },
    {
        let mut pending = pending;
        pending.pop()
    }

    /// Opens a request. `query` is one of `coord`, `getch`, `size`, `screen`
    /// and `pos`; any other is answered at once with the empty reply.
    pub fn request(&self, query: &str) -> (turn: Turn)
        ensures
            turn.send@ == opening_cmds(self.id, self.platform, query@),
            turn.next == opening_next(self.platform, query@),
    {
        let mut send: Vec<Cmd> = Vec::new();
        let next = if same_text(query, "coord") {
            send.push(Cmd::Request(Query::Coord(self.id)));
            Progress::Pending(Wait::Response)
        } else if same_text(query, "getch") {
            send.push(Cmd::Request(Query::GetCh(self.id)));
            Progress::Pending(Wait::Response)
        } else if same_text(query, "size") {
            send.push(Cmd::Request(Query::Size(self.id)));
            Progress::Pending(Wait::Response)
        } else if same_text(query, "screen") {
            send.push(Cmd::Request(Query::Screen(self.id)));
            Progress::Pending(Wait::Response)
        } else if same_text(query, "pos") {
            match self.platform {
                Platform::Ansi => {
                    send.push(Cmd::Request(Query::IsRaw(self.id)));
                    Progress::Pending(Wait::IsRaw)
                },
                Platform::Console => {
                    send.push(Cmd::Request(Query::Pos(self.id)));
                    Progress::Pending(Wait::Response)
                },
            }
        } else {
            Progress::Done(Reply::Empty)
        };
        proof {
            reveal_strlit("coord");
            reveal_strlit("getch");
            reveal_strlit("size");
            reveal_strlit("screen");
            reveal_strlit("pos");
            assert(send@ =~= opening_cmds(self.id, self.platform, query@));
        }
        Turn { send, next }
    }

    /// Continues a request that waits for `wait` with the message that
    /// arrived. A plain query is done with the first response. For the
    /// cursor position the handle first learns whether the screen is raw,
    /// makes it raw if it is not, asks for the position, and is done when
    /// the device's report arrives; a screen that it made raw is cooked
    /// again.
    pub fn receive(&self, wait: Wait, msg: Msg) -> (turn: Turn)
        ensures
            turn.send@ == reply_cmds(self.id, wait, msg),
            turn.next == reply_next(wait, msg),
    {
        let mut send: Vec<Cmd> = Vec::new();
        let next = match wait {
            Wait::Response => match msg {
                Msg::Response(reply) => Progress::Done(reply),
                _ => Progress::Pending(wait),
            },
            Wait::IsRaw => match msg {
                Msg::Response(Reply::IsRaw(raw)) => {
                    if !raw {
                        send.push(Cmd::Signal(Action::Raw));
                    }
                    send.push(Cmd::Request(Query::Pos(self.id)));
                    Progress::Pending(Wait::Position(!raw))
                },
                _ => Progress::Pending(wait),
            },
            Wait::Position(cook) => match msg {
                Msg::Received(InputEvent::CursorPos(col, row)) => {
                    if cook {
                        send.push(Cmd::Signal(Action::Cook));
                    }
                    Progress::Done(Reply::Pos(col, row))
                },
                _ => Progress::Pending(wait),
            },
        };
        proof {
            assert(send@ =~= reply_cmds(self.id, wait, msg));
        }
        Turn { send, next }
    }
}

} // verus!
