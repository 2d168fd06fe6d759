//! The process runner's event model.
//!
//! The external fetch command is observed as a stream of events: lines
//! arriving on its two standard streams, each stream reaching its end,
//! and the process exiting. The caller performs the actual waiting and
//! reading; this module decides what each event means, surfaces every
//! line to the sink in arrival order, and resolves only once the
//! process has exited and both streams are fully drained.

use vstd::prelude::*;
use crate::errors::Error;

verus! {

/// Which standard stream a line arrived on.
#[derive(Clone, Copy, Debug, PartialEq, Eq, Structural)]
pub enum StreamSource {
    /// The process's standard output.
    Stdout,
    /// The process's standard error.
    Stderr,
}

/// A line surfaced to the caller's sink, tagged with its stream.
#[derive(Clone, Debug)]
pub struct TaggedLine {
    /// The stream the line arrived on.
    pub source: StreamSource,
    /// The line itself, without its newline.
    pub line: String,
}

/// One observation made while the external process runs.
#[derive(Clone, Debug)]
pub enum RunEvent {
    /// A line arrived on standard output.
    OutLine(String),
    /// A line arrived on standard error.
    ErrLine(String),
    /// Standard output reached its end.
    OutClosed,
    /// Standard error reached its end.
    ErrClosed,
    /// The process exited with this status code.
    Exited(i32),
}

/// The lines a sequence of events carries on standard error, in order.
pub open spec fn event_err_lines(evs: Seq<RunEvent>) -> Seq<Seq<char>>
    decreases evs.len(),
{
    if evs.len() == 0 {
        Seq::<Seq<char>>::empty()
    } else {
        event_err_lines(evs.drop_last()) + match evs.last() {
            RunEvent::ErrLine(l) => seq![l@],
            _ => Seq::<Seq<char>>::empty(),
        }
    }
}

/// The lines a sequence of events carries on standard output, in order.
pub open spec fn event_out_lines(evs: Seq<RunEvent>) -> Seq<Seq<char>>
    decreases evs.len(),
{
    if evs.len() == 0 {
        Seq::<Seq<char>>::empty()
    } else {
        event_out_lines(evs.drop_last()) + match evs.last() {
            RunEvent::OutLine(l) => seq![l@],
            _ => Seq::<Seq<char>>::empty(),
        }
    }
}

/// The standard-error lines a sink holds, in order.
pub open spec fn sink_err_lines(sink: Seq<TaggedLine>) -> Seq<Seq<char>>
    decreases sink.len(),
{
    if sink.len() == 0 {
        Seq::<Seq<char>>::empty()
    } else {
        sink_err_lines(sink.drop_last()) + if sink.last().source == StreamSource::Stderr {
            seq![sink.last().line@]
        } else {
            Seq::<Seq<char>>::empty()
        }
    }
}

/// The standard-output lines a sink holds, in order.
pub open spec fn sink_out_lines(sink: Seq<TaggedLine>) -> Seq<Seq<char>>
    decreases sink.len(),
{
    if sink.len() == 0 {
        Seq::<Seq<char>>::empty()
    } else {
        sink_out_lines(sink.drop_last()) + if sink.last().source == StreamSource::Stdout {
            seq![sink.last().line@]
        } else {
            Seq::<Seq<char>>::empty()
        }
    }
}

/// Whether standard output is still open after these events.
pub open spec fn out_open_after(evs: Seq<RunEvent>) -> bool
    decreases evs.len(),
{
    if evs.len() == 0 {
        true
    } else {
        out_open_after(evs.drop_last()) && !(evs.last() is OutClosed)
    }
}

/// Whether standard error is still open after these events.
pub open spec fn err_open_after(evs: Seq<RunEvent>) -> bool
    decreases evs.len(),
{
    if evs.len() == 0 {
        true
    } else {
        err_open_after(evs.drop_last()) && !(evs.last() is ErrClosed)
    }
}

/// The last exit status reported by these events, if any.
pub open spec fn exit_after(evs: Seq<RunEvent>) -> Option<i32>
    decreases evs.len(),
{
    if evs.len() == 0 {
        Option::<i32>::None
    } else {
        match evs.last() {
            RunEvent::Exited(c) => Option::Some(c),
            _ => exit_after(evs.drop_last()),
        }
    }
}

/// What a run resolves with for a given exit status.
pub open spec fn exit_outcome(code: i32) -> Result<(), Error> {
    if code == 0 {
        Result::<(), Error>::Ok(())
    } else {
        Result::<(), Error>::Err(Error::NonZeroExit(code))
    }
}

/// The state of one external run: which streams are still open, the
/// exit status once seen, and every line surfaced so far, in arrival
/// order.
pub struct RunnerState {
    /// Standard output has not reached its end yet.
    pub stdout_open: bool,
    /// Standard error has not reached its end yet.
    pub stderr_open: bool,
    /// The exit status, once the process has exited.
    pub exit_code: Option<i32>,
    /// Every line surfaced to the caller, in arrival order.
    pub sink: Vec<TaggedLine>,
}

impl RunnerState {
    /// The run may resolve: the process exited and both streams are
    /// fully drained.
    pub open spec fn resolved(self) -> bool {
        !self.stdout_open && !self.stderr_open && self.exit_code is Some
    }

    /// A fresh run: both streams open, no exit seen, nothing surfaced.
    pub fn new() -> (s: Self)
        ensures
            s.stdout_open,
            s.stderr_open,
            s.exit_code is None,
            s.sink@ == Seq::<TaggedLine>::empty(),
    {
        let s = RunnerState { stdout_open: true, stderr_open: true, exit_code: None, sink: Vec::new() };
        proof {
            assert(s.sink@ =~= Seq::<TaggedLine>::empty());
        }
        s
    }

    /// Absorbs one event: a line is appended to the sink tagged with
    /// its stream, an end of stream closes that stream, and an exit
    /// records the status. Nothing already surfaced is ever dropped.
    pub fn step(&mut self, ev: RunEvent)
        ensures
            final(self).sink@ == match ev {
                RunEvent::OutLine(l) => old(self).sink@.push(
                    (TaggedLine { source: StreamSource::Stdout, line: l }),
                ),
                RunEvent::ErrLine(l) => old(self).sink@.push(
                    (TaggedLine { source: StreamSource::Stderr, line: l }),
                ),
                _ => old(self).sink@,
            },
            final(self).stdout_open == (old(self).stdout_open && !(ev is OutClosed)),
            final(self).stderr_open == (old(self).stderr_open && !(ev is ErrClosed)),
            final(self).exit_code == match ev {
                RunEvent::Exited(c) => Option::Some(c),
                _ => old(self).exit_code,
            },
    {
        match ev {
            RunEvent::OutLine(l) => {
                self.sink.push(TaggedLine { source: StreamSource::Stdout, line: l });
            },
            RunEvent::ErrLine(l) => {
                self.sink.push(TaggedLine { source: StreamSource::Stderr, line: l });
            },
            RunEvent::OutClosed => {
                self.stdout_open = false;
            },
            RunEvent::ErrClosed => {
                self.stderr_open = false;
            },
            RunEvent::Exited(c) => {
                self.exit_code = Some(c);
            },
        }
    }

    /// The run's resolution: `None` while the process is still running
    /// or a stream is still open; once resolved, success exactly on
    /// exit status zero, and `NonZeroExit` with the status otherwise.
    pub fn outcome(&self) -> (r: Option<Result<(), Error>>)
        ensures
            (r is Some) == self.resolved(),
            self.resolved() ==> r == Option::Some(exit_outcome(self.exit_code->0)),
    {
        if self.stdout_open || self.stderr_open {
            return None;
        }
        match self.exit_code {
            Option::None => None,
            Option::Some(code) => {
                if code == 0 {
                    Some(Ok(()))
                } else {
                    Some(Err(Error::NonZeroExit(code)))
                }
            },
        }
    }
}

/// Replays a whole event sequence. Every line of both streams is
/// surfaced to the returned sink in arrival order — in particular,
/// every line written to the error stream is in the sink before the
/// run resolves — and the run resolves exactly when the process has
/// exited and both streams have been drained, with success exactly on
/// exit status zero.
pub fn process_events(events: Vec<RunEvent>) -> (r: (Vec<TaggedLine>, Option<Result<(), Error>>))
    ensures
        sink_err_lines(r.0@) == event_err_lines(events@),
        sink_out_lines(r.0@) == event_out_lines(events@),
        (r.1 is Some) == (!out_open_after(events@) && !err_open_after(events@) && exit_after(
            events@,
        ) is Some),
        (r.1 is Some) ==> r.1 == Option::Some(exit_outcome(exit_after(events@)->0)),
{
    let mut st = RunnerState::new();
    let n = events.len();
    let mut i: usize = 0;
    let mut events = events;
    let ghost evs0 = events@;
    proof {
        assert(evs0.take(0) =~= Seq::<RunEvent>::empty());
        assert(events@ =~= evs0.skip(0));
    }
    while i < n
        invariant
            n == evs0.len(),
            i <= n,
            events@ == evs0.skip(i as int),
            sink_err_lines(st.sink@) == event_err_lines(evs0.take(i as int)),
            sink_out_lines(st.sink@) == event_out_lines(evs0.take(i as int)),
            st.stdout_open == out_open_after(evs0.take(i as int)),
            st.stderr_open == err_open_after(evs0.take(i as int)),
            st.exit_code == exit_after(evs0.take(i as int)),
        decreases n - i,
    {
        proof {
            assert(evs0.skip(i as int).len() > 0);
        }
        let ev = events.remove(0);
        proof {
            assert(ev == evs0.skip(i as int)[0]);
            assert(evs0.skip(i as int)[0] == evs0[i as int]);
            assert(evs0.skip(i as int).remove(0) =~= evs0.skip(i as int + 1));
        }
        let ghost old_sink = st.sink@;
        st.step(ev);
        proof {
            let pre = evs0.take(i as int);
            let pre1 = evs0.take(i as int + 1);
            assert(pre1.drop_last() =~= pre);
            assert(pre1.last() == evs0[i as int]);
            if st.sink@.len() > old_sink.len() {
                assert(st.sink@.drop_last() =~= old_sink);
            }
            assert(event_err_lines(pre) + Seq::<Seq<char>>::empty() =~= event_err_lines(pre));
            assert(event_out_lines(pre) + Seq::<Seq<char>>::empty() =~= event_out_lines(pre));
            assert(sink_err_lines(old_sink) + Seq::<Seq<char>>::empty() =~= sink_err_lines(
                old_sink,
            ));
            assert(sink_out_lines(old_sink) + Seq::<Seq<char>>::empty() =~= sink_out_lines(
                old_sink,
            ));
        }
        i = i + 1;
    }
    proof {
        assert(evs0.take(n as int) =~= evs0);
    }
    let out = st.outcome();
    (st.sink, out)
}

} // verus!
