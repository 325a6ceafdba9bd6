//! Picking the diff of one path out of a traversal.
//!
//! A traversal reports each changed path once, in its own order, and after a
//! path the lines of that path's diff. The extractor listens: it classifies
//! the record of the path it was made for, keeps the lines that belong to that
//! path, and asks the traversal to stop at the first other path that follows.

use crate::diff::{Details, DiffDelta, Line, Meta};
use crate::error::{Error, ErrorCode, Git2Error};
use crate::file::text_view;
use crate::path::{path_eq, same_path};
use vstd::prelude::*;

verus! {

/// The path that a record is about: that of its new side, or of its old side
/// where the new side has none.
pub open spec fn spec_delta_path(delta: DiffDelta) -> Option<Seq<char>> {
    match text_view(delta.new_file.path) {
        Some(p) => Some(p),
        None => text_view(delta.old_file.path),
    }
}

/// Whether a record is about the path `path`.
pub open spec fn is_target(delta: DiffDelta, path: Seq<char>) -> bool {
    match spec_delta_path(delta) {
        Some(p) => path_eq(p, path),
        None => false,
    }
}

pub fn delta_path(delta: &DiffDelta) -> (r: Option<&str>)
    ensures
        r is Some == spec_delta_path(*delta) is Some,
        r is Some ==> r->0@ == spec_delta_path(*delta)->0,
{
    match &delta.new_file.path {
        Some(p) => Some(p.as_str()),
        None => match &delta.old_file.path {
            Some(p) => Some(p.as_str()),
            None => None,
        },
    }
}

/// One report of a traversal: a changed path, or one line of the diff of the
/// path that the traversal is at.
#[derive(Debug)]
pub enum DiffEvent {
    File(DiffDelta),
    Line(DiffDelta, Line),
}

impl DiffEvent {
    pub open spec fn delta(self) -> DiffDelta {
        match self {
            DiffEvent::File(d) => d,
            DiffEvent::Line(d, _) => d,
        }
    }
}

/// What has been gathered of a traversal: the classification of the target, the
/// target's lines so far, and whether the traversal was asked to stop.
pub ghost struct Scan {
    pub meta: Option<Meta>,
    pub lines: Seq<Line>,
    pub stopped: bool,
}

/// Nothing gathered yet.
pub open spec fn scan_start() -> Scan {
    Scan { meta: None, lines: Seq::empty(), stopped: false }
}

/// What one report adds. A record of the target is classified, and replaces an
/// earlier classification. Any other record changes nothing, and stops the
/// traversal once the target has been seen. A line is kept if it belongs to the
/// target.
pub open spec fn scan_step(path: Seq<char>, s: Scan, e: DiffEvent) -> Scan {
    match e {
        DiffEvent::File(d) => if is_target(d, path) {
            Scan { meta: Some(Meta::spec_from_git2(d)), ..s }
        } else {
            Scan { stopped: s.meta is Some, ..s }
        },
        DiffEvent::Line(d, l) => if is_target(d, path) {
            Scan { lines: s.lines.push(l), ..s }
        } else {
            s
        },
    }
}

/// What a traversal that reports `events` leaves behind: the reports are taken
/// in order, up to the one that stops the traversal.
pub open spec fn scan(path: Seq<char>, events: Seq<DiffEvent>) -> Scan
    decreases events.len(),
{
    if events.len() == 0 {
        scan_start()
    } else {
        let s = scan(path, events.drop_last());
        if s.stopped {
            s
        } else {
            scan_step(path, s, events.last())
        }
    }
}

/// Whether some record among the first `n` reports is about `path`.
pub open spec fn visits_target(path: Seq<char>, events: Seq<DiffEvent>, n: int) -> bool {
    exists|i: int|
        0 <= i < n && i < events.len() && (#[trigger] events[i]) is File && is_target(
            events[i].delta(),
            path,
        )
}

/// Once a traversal has stopped, later reports change nothing.
pub proof fn lemma_stopped_stays(path: Seq<char>, events: Seq<DiffEvent>, n: int)
    requires
        0 <= n <= events.len(),
        scan(path, events.take(n)).stopped,
    ensures
        scan(path, events) == scan(path, events.take(n)),
    decreases events.len() - n,
{
    if n == events.len() {
        assert(events.take(n) =~= events);
    } else {
        assert(events.take(n + 1).drop_last() =~= events.take(n));
        lemma_stopped_stays(path, events, n + 1);
    }
}

/// The target is classified exactly if the traversal reports a record of it,
/// and a traversal stops only after it has classified the target.
pub proof fn lemma_found_iff_visited(path: Seq<char>, events: Seq<DiffEvent>)
    ensures
        scan(path, events).meta is Some <==> visits_target(path, events, events.len() as int),
        scan(path, events).stopped ==> scan(path, events).meta is Some,
    decreases events.len(),
{
    if events.len() > 0 {
        let front = events.drop_last();
        let n = events.len() as int;
        lemma_found_iff_visited(path, front);
        let s = scan(path, front);
        if visits_target(path, front, n - 1) {
            let i = choose|i: int|
                0 <= i < n - 1 && i < front.len() && (#[trigger] front[i]) is File && is_target(
                    front[i].delta(),
                    path,
                );
            assert(events[i] == front[i]);
        }
        if visits_target(path, events, n) {
            let i = choose|i: int|
                0 <= i < n && i < events.len() && (#[trigger] events[i]) is File && is_target(
                    events[i].delta(),
                    path,
                );
            if i < n - 1 {
                assert(front[i] == events[i]);
            } else {
                assert(events[i] == events.last());
            }
        }
        if !s.stopped && events.last() is File && is_target(events.last().delta(), path) {
            assert(events[n - 1] == events.last());
        }
    }
}

/// Every line that is kept belongs to the target.
pub proof fn lemma_lines_belong(path: Seq<char>, events: Seq<DiffEvent>, k: int)
    requires
        0 <= k < scan(path, events).lines.len(),
    ensures
        exists|i: int|
            0 <= i < events.len() && #[trigger] events[i] == DiffEvent::Line(
                events[i].delta(),
                scan(path, events).lines[k],
            ) && is_target(events[i].delta(), path),
    decreases events.len(),
{
    let front = events.drop_last();
    let s = scan(path, front);
    let n = events.len() as int;
    if k < s.lines.len() {
        lemma_lines_belong(path, front, k);
        let i = choose|i: int|
            0 <= i < front.len() && #[trigger] front[i] == DiffEvent::Line(
                front[i].delta(),
                s.lines[k],
            ) && is_target(front[i].delta(), path);
        assert(events[i] == front[i]);
        assert(scan(path, events).lines[k] == s.lines[k]);
    } else {
        assert(events[n - 1] == events.last());
    }
}

/// Whether `r` is what a traversal for `path` comes to, when it has gathered
/// `s` and returned `outcome`. A failure other than a stop that a callback asked
/// for is passed on as it is. Otherwise the classification and the lines are
/// returned, or `PathNotFound` with the path where the target was never seen.
pub open spec fn finishes_as(
    path: Seq<char>,
    s: Scan,
    outcome: Result<(), Git2Error>,
    r: Result<Details, Error>,
) -> bool {
    if outcome is Err && outcome->Err_0.code != ErrorCode::User {
        r == Err::<Details, Error>(Error::Git2(outcome->Err_0))
    } else {
        match s.meta {
            Some(meta) => r is Ok && r->Ok_0.spec_meta() == meta && r->Ok_0.spec_lines()
                == s.lines,
            None => r matches Err(Error::PathNotFound(p)) && p@ == path,
        }
    }
}

/// Listens to a traversal on behalf of one path.
#[derive(Debug)]
pub struct Extractor {
    path: String,
    meta: Option<Meta>,
    lines: Vec<Line>,
}

impl Extractor {
    /// The path that the extractor was made for.
    pub closed spec fn spec_path(&self) -> Seq<char> {
        self.path@
    }

    /// What the extractor has gathered. It never records a stop: it only asks
    /// for one.
    pub closed spec fn gathered(&self) -> Scan {
        Scan { meta: self.meta, lines: self.lines@, stopped: false }
    }

    pub fn new(path: &str) -> (r: Self)
        ensures
            r.spec_path() == path@,
            r.gathered() == scan_start(),
    {
        Extractor { path: path.to_owned(), meta: None, lines: Vec::new() }
    }

    pub fn path(&self) -> (r: &str)
        ensures
            r@ == self.spec_path(),
    {
        self.path.as_str()
    }

    /// Whether the target has been classified, so that no further path needs
    /// to be reported. Lines of the target may still follow.
    pub fn found(&self) -> (r: bool)
        ensures
            r == self.gathered().meta is Some,
    {
        self.meta.is_some()
    }

    /// Whether a record is about the path that the extractor was made for.
    pub fn targets(&self, delta: &DiffDelta) -> (r: bool)
        ensures
            r == is_target(*delta, self.spec_path()),
    {
        match delta_path(delta) {
            Some(p) => same_path(p, self.path.as_str()),
            None => false,
        }
    }

    /// Takes the report of a changed path, and says whether the traversal is
    /// to go on: it is, until a path other than the target follows the target.
    /// The target itself does not end the traversal, because its lines are
    /// reported only after this answer.
    pub fn visit_file(&mut self, delta: &DiffDelta) -> (go_on: bool)
        requires
            is_target(*delta, old(self).spec_path()) ==> delta.classifiable(),
        ensures
            final(self).spec_path() == old(self).spec_path(),
            scan_step(old(self).spec_path(), old(self).gathered(), DiffEvent::File(*delta)) == (Scan {
                stopped: !go_on,
                ..final(self).gathered()
            }),
    {
        if self.targets(delta) {
            self.meta = Some(Meta::from_git2(delta));
            return true;
        }
        self.meta.is_none()
    }

    /// Takes the report of a line, and keeps it if it belongs to the target.
    /// The traversal is always to go on.
    pub fn visit_line(&mut self, delta: &DiffDelta, line: Line) -> (go_on: bool)
        ensures
            go_on,
            final(self).spec_path() == old(self).spec_path(),
            final(self).gathered() == scan_step(
                old(self).spec_path(),
                old(self).gathered(),
                DiffEvent::Line(*delta, line),
            ),
    {
        if self.targets(delta) {
            self.lines.push(line);
        }
        true
    }

    /// Ends the listening with what the traversal returned. A stop that the
    /// extractor asked for is no failure; any other failure is passed on. Then
    /// the target must have been seen, or the path was not found.
    pub fn finish(self, outcome: Result<(), Git2Error>) -> (r: Result<Details, Error>)
        ensures
            finishes_as(self.spec_path(), self.gathered(), outcome, r),
    {
        match outcome {
            Ok(()) => {},
            Err(err) => {
                if !is_user(&err) {
                    return Err(Error::Git2(err));
                }
            },
        }
        match self.meta {
            Some(meta) => Ok(Details::new(meta, self.lines)),
            None => Err(Error::PathNotFound(self.path)),
        }
    }
}

/// The diff of `path` out of the reports of a traversal, taken in order up to
/// the one at which the extractor asks to stop.
pub fn extract(path: &str, events: Vec<DiffEvent>) -> (r: Result<Details, Error>)
    requires
        forall|i: int|
            0 <= i < events.len() && (#[trigger] events[i]) is File
                ==> events[i].delta().classifiable(),
    ensures
        finishes_as(path@, scan(path@, events@), Ok(()), r),
        r is Ok <==> visits_target(path@, events@, events.len() as int),
{
    let ghost all = events@;
    let mut extractor = Extractor::new(path);
    let mut stopped = false;
    for e in it: events
        invariant
            it.seq() == all,
            forall|i: int|
                0 <= i < all.len() && (#[trigger] all[i]) is File ==> all[i].delta().classifiable(),
            extractor.spec_path() == path@,
            scan(path@, all.take(it.index() as int)) == (Scan {
                stopped,
                ..extractor.gathered()
            }),
    {
        proof {
            assert(all.take(it.index() + 1).drop_last() =~= all.take(it.index() as int));
            assert(all.take(it.index() + 1).last() == all[it.index() as int]);
        }
        if !stopped {
            match e {
                DiffEvent::File(delta) => {
                    let go_on = extractor.visit_file(&delta);
                    stopped = !go_on;
                },
                DiffEvent::Line(delta, line) => {
                    extractor.visit_line(&delta, line);
                },
            }
        }
    }
    proof {
        assert(all.take(all.len() as int) =~= all);
        lemma_found_iff_visited(path@, all);
    }
    extractor.finish(Ok(()))
}

fn is_user(err: &Git2Error) -> (r: bool)
    ensures
        r == (err.code == ErrorCode::User),
{
    match err.code {
        ErrorCode::User => true,
        _ => false,
    }
}

} // verus!
