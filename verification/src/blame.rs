//! Fetching the blame of a file, debounced: requests that come in quick
//! succession are merged, and the last one is carried out when the requests
//! stop.

use vstd::prelude::*;
use std::path::PathBuf;
use crate::vecs::reversed;

verus! {

/// A request to fetch the blame of the file at `path` for the document
/// `doc_id`. With `line`, the blame of that line is shown once the blame is
/// there. `D` is the host's type of document ids.
pub struct BlameEvent<D> {
    pub path: PathBuf,
    pub doc_id: D,
    pub line: Option<u32>,
}

/// What to do when the blame of a file has been fetched.
#[derive(Debug, Clone, Copy, PartialEq, Eq, Structural)]
pub enum BlameFollowUp {
    /// The blame is shown inline as it is; nothing more to do.
    Nothing,
    /// Show the blame of this line in the status line.
    ShowLine(u32),
    /// Tell the user that the blame is now available.
    Announce,
}

/// How long the handler waits for a further request before it carries the
/// last one out, in milliseconds.
pub open spec fn debounce_millis() -> u64 {
    50
}

/// Merges the requests for one file's blame.
pub struct BlameHandler<D> {
    pending_path: Option<PathBuf>,
    doc_id: D,
    show_blame_for_line_in_statusline: Option<u32>,
}

impl<D: Copy> BlameHandler<D> {
    /// The path of the request that waits to be carried out.
    pub closed spec fn pending_path(&self) -> Option<PathBuf> {
        self.pending_path
    }

    /// The document of the last request.
    pub closed spec fn doc_id(&self) -> D {
        self.doc_id
    }

    /// The line of the last request.
    pub closed spec fn line(&self) -> Option<u32> {
        self.show_blame_for_line_in_statusline
    }

    /// A handler on which nothing is pending. `doc_id` stands for the
    /// document of the last request until there is one.
    pub fn new(doc_id: D) -> (r: Self)
        ensures
            r.pending_path() is None,
            r.line() is None,
            r.doc_id() == doc_id,
    {
        BlameHandler { pending_path: None, doc_id, show_blame_for_line_in_statusline: None }
    }

    /// Takes a request in place of any that was pending, and returns how
    /// many milliseconds from now the request is due.
    pub fn handle_event(&mut self, event: BlameEvent<D>) -> (delay: u64)
        ensures
            delay == debounce_millis(),
            final(self).pending_path() == Some(event.path),
            final(self).doc_id() == event.doc_id,
            final(self).line() == event.line,
    {
        self.doc_id = event.doc_id;
        self.show_blame_for_line_in_statusline = event.line;
        self.pending_path = Some(event.path);
        50
    }

    /// The request that is due, if one is pending. Afterwards nothing is
    /// pending.
    pub fn finish_debounce(&mut self) -> (due: Option<BlameEvent<D>>)
        ensures
            final(self).pending_path() is None,
            final(self).doc_id() == old(self).doc_id(),
            final(self).line() == old(self).line(),
            old(self).pending_path() matches Some(path) ==> due == Some(
                BlameEvent { path, doc_id: old(self).doc_id(), line: old(self).line() },
            ),
            old(self).pending_path() is None ==> due is None,
    {
        let mut path: Option<PathBuf> = None;
        core::mem::swap(&mut self.pending_path, &mut path);
        match path {
            Some(path) => Some(
                BlameEvent { path, doc_id: self.doc_id, line: self.show_blame_for_line_in_statusline },
            ),
            None => None,
        }
    }
}

impl<D: Copy + Default> Default for BlameHandler<D> {
    fn default() -> (r: Self) {
        BlameHandler { pending_path: None, doc_id: D::default(), show_blame_for_line_in_statusline: None }
    }
}

/// What to do when the blame has been fetched: where blames are fetched
/// automatically nothing more is needed; else the requested line is shown,
/// or the user is told that the blame is there.
pub fn follow_up(auto_fetch: bool, line: Option<u32>) -> (r: BlameFollowUp)
    ensures
        auto_fetch ==> r == BlameFollowUp::Nothing,
        !auto_fetch ==> r == match line {
            Some(l) => BlameFollowUp::ShowLine(l),
            None => BlameFollowUp::Announce,
        },
{
    if auto_fetch {
        BlameFollowUp::Nothing
    } else {
        match line {
            Some(l) => BlameFollowUp::ShowLine(l),
            None => BlameFollowUp::Announce,
        }
    }
}

/// The request to make when a document is opened: its blame is fetched
/// where blames are fetched automatically.
pub fn on_document_open<D>(auto_fetch: bool, path: PathBuf, doc_id: D) -> (r: Option<BlameEvent<D>>)
    ensures
        auto_fetch ==> r == Some(BlameEvent { path, doc_id, line: None }),
        !auto_fetch ==> r is None,
{
    if auto_fetch {
        Some(BlameEvent { path, doc_id, line: None })
    } else {
        None
    }
}

/// Whether a change of the configuration has switched the automatic fetching
/// of blames on.
pub fn switched_on(old_auto_fetch: bool, new_auto_fetch: bool) -> (r: bool)
    ensures
        r == (!old_auto_fetch && new_auto_fetch),
{
    !old_auto_fetch && new_auto_fetch
}

/// The requests for the documents that have a path, in order.
pub open spec fn requests_for<D>(documents: Seq<(D, Option<PathBuf>)>) -> Seq<BlameEvent<D>>
    decreases documents.len(),
{
    if documents.len() == 0 {
        Seq::empty()
    } else {
        match documents.last().1 {
            Some(path) => requests_for(documents.drop_last()).push(
                BlameEvent { path, doc_id: documents.last().0, line: None },
            ),
            None => requests_for(documents.drop_last()),
        }
    }
}

/// The requests to make when the automatic fetching of blames has been
/// switched on: one for every open document that has a path, since the
/// blame of any of them may be out of date.
pub fn on_config_change<D>(
    old_auto_fetch: bool,
    new_auto_fetch: bool,
    documents: Vec<(D, Option<PathBuf>)>,
) -> (r: Vec<BlameEvent<D>>)
    ensures
        !old_auto_fetch && new_auto_fetch ==> r@ == requests_for(documents@),
        !(!old_auto_fetch && new_auto_fetch) ==> r@.len() == 0,
{
    let mut requests: Vec<BlameEvent<D>> = Vec::new();
    if !switched_on(old_auto_fetch, new_auto_fetch) {
        return requests;
    }
    let ghost all = documents@;
    let mut stack = reversed(documents);
    let ghost mut done: int = 0;
    assert(all.take(0) =~= Seq::<(D, Option<PathBuf>)>::empty());
    while stack.len() > 0
        invariant
            0 <= done <= all.len(),
            stack@ == all.reverse().take(all.len() - done),
            requests@ == requests_for(all.take(done)),
        decreases stack@.len(),
    {
        match stack.pop() {
            None => {},
            Some(document) => {
                proof {
                    assert(document == all[done]);
                    assert(all.take(done + 1).drop_last() =~= all.take(done));
                    assert(all.take(done + 1).last() == all[done]);
                    assert(stack@ =~= all.reverse().take(all.len() - done - 1));
                    done = done + 1;
                }
                match document.1 {
                    Some(path) => {
                        requests.push(BlameEvent { path, doc_id: document.0, line: None });
                    },
                    None => {},
                }
            },
        }
    }
    assert(all.take(done) =~= all);
    requests
}

} // verus!
