//! A persistence façade: store a text payload verbatim at a file path, and
//! load it back, substituting the two-character sentinel `[]` when the path
//! holds no file. The host filesystem is an outside collaborator: the caller
//! performs the raw read or write and hands its outcome to the functions
//! here, which decide what the façade answers.

use vstd::prelude::*;

verus! {

use vstd::string::StringExecFns;

/// A request to store `data` verbatim at `path`. Both fields are opaque
/// text: the façade neither validates the path nor inspects the payload.
pub struct SaveRequest {
    pub path: String,
    pub data: String,
}

/// What the host filesystem reported for a write attempt.
pub enum WriteOutcome {
    /// The payload was written in full.
    Done,
    /// The write failed; the host's human-readable message.
    Failure(String),
}

/// What the host filesystem reported for a read attempt.
pub enum ReadOutcome {
    /// A file exists at the path and its full text was read.
    Content(String),
    /// No file exists at the path.
    Absent,
    /// A file exists but could not be read; the host's message.
    Failure(String),
}

/// The sentinel that a load yields when the path holds no file: the
/// two-character text `[]`, which callers read as an empty list.
pub open spec fn empty_list_sentinel() -> Seq<char> {
    seq!['[', ']']
}

/// An abstract filesystem maps each path that holds a file to the text
/// stored there. A save overwrites, creating the file if absent.
pub open spec fn store_after_save(
    store: Map<Seq<char>, Seq<char>>,
    path: Seq<char>,
    data: Seq<char>,
) -> Map<Seq<char>, Seq<char>> {
    store.insert(path, data)
}

/// The text a load yields on an abstract filesystem when the read itself
/// succeeds: the stored text verbatim, or the sentinel where no file exists.
pub open spec fn loaded_text(store: Map<Seq<char>, Seq<char>>, path: Seq<char>) -> Seq<char> {
    if store.dom().contains(path) {
        store[path]
    } else {
        empty_list_sentinel()
    }
}

/// What the save operation answers for each write outcome: success signals
/// nothing; a failure surfaces the host's message verbatim.
pub open spec fn save_answer(outcome: WriteOutcome) -> Result<(), Seq<char>> {
    match outcome {
        WriteOutcome::Done => Ok(()),
        WriteOutcome::Failure(message) => Err(message@),
    }
}

/// What the load operation answers for each read outcome: the text verbatim,
/// the sentinel on absence, or the host's message as an error.
pub open spec fn load_answer(outcome: ReadOutcome) -> Result<Seq<char>, Seq<char>> {
    match outcome {
        ReadOutcome::Content(text) => Ok(text@),
        ReadOutcome::Absent => Ok(empty_list_sentinel()),
        ReadOutcome::Failure(message) => Err(message@),
    }
}

/// A text result, seen abstractly.
pub open spec fn text_result_view(r: Result<String, String>) -> Result<Seq<char>, Seq<char>> {
    match r {
        Ok(text) => Ok(text@),
        Err(message) => Err(message@),
    }
}

/// A unit result, seen abstractly.
pub open spec fn unit_result_view(r: Result<(), String>) -> Result<(), Seq<char>> {
    match r {
        Ok(u) => Ok(u),
        Err(message) => Err(message@),
    }
}

/// The sentinel as an executable value.
pub fn empty_list_token() -> (r: String)
    ensures
        r@ == empty_list_sentinel(),
{
    let r = String::from_str("[]");
    proof {
        reveal_strlit("[]");
        assert(r@ =~= empty_list_sentinel());
    }
    r
}

/// Answer a save request, given the filesystem's outcome for the write.
pub fn save_response(outcome: WriteOutcome) -> (r: Result<(), String>)
    ensures
        unit_result_view(r) == save_answer(outcome),
{
    match outcome {
        WriteOutcome::Done => Ok(()),
        WriteOutcome::Failure(message) => Err(message),
    }
}

/// Answer a load request, given the filesystem's outcome for the read.
pub fn load_response(outcome: ReadOutcome) -> (r: Result<String, String>)
    ensures
        text_result_view(r) == load_answer(outcome),
{
    match outcome {
        ReadOutcome::Content(text) => Ok(text),
        ReadOutcome::Absent => Ok(empty_list_token()),
        ReadOutcome::Failure(message) => Err(message),
    }
}

/// A read outcome faithfully reports a store at a path when it carries the
/// stored text where a file exists and absence where none does.
pub open spec fn reports_store(
    outcome: ReadOutcome,
    store: Map<Seq<char>, Seq<char>>,
    path: Seq<char>,
) -> bool {
    match outcome {
        ReadOutcome::Content(text) => store.dom().contains(path) && text@ == store[path],
        ReadOutcome::Absent => !store.dom().contains(path),
        ReadOutcome::Failure(_) => false,
    }
}

/// Round-trip identity: after a save of `data` at `path`, a load at that
/// path yields exactly `data` — never the sentinel, never an error.
pub proof fn lemma_save_then_load_round_trip(
    store: Map<Seq<char>, Seq<char>>,
    path: Seq<char>,
    data: Seq<char>,
)
    ensures
        loaded_text(store_after_save(store, path, data), path) == data,
{
}

/// A load where no file exists yields exactly the sentinel, never an error.
pub proof fn lemma_load_absent_is_sentinel(store: Map<Seq<char>, Seq<char>>, path: Seq<char>)
    requires
        !store.dom().contains(path),
    ensures
        loaded_text(store, path) == empty_list_sentinel(),
        load_answer(ReadOutcome::Absent) == Ok::<Seq<char>, Seq<char>>(empty_list_sentinel()),
{
}

/// Saving empty text and loading it back yields the empty text, not the
/// sentinel: the sentinel marks absence, never empty content.
pub proof fn lemma_saved_empty_text_is_not_sentinel(
    store: Map<Seq<char>, Seq<char>>,
    path: Seq<char>,
)
    ensures
        loaded_text(store_after_save(store, path, Seq::<char>::empty()), path) == Seq::<char>::empty(),
        loaded_text(store_after_save(store, path, Seq::<char>::empty()), path) != empty_list_sentinel(),
{
    assert(empty_list_sentinel().len() == 2);
}

/// A failed write is answered with the host's message verbatim, never with
/// success.
pub proof fn lemma_write_failure_is_an_error(message: String)
    ensures
        save_answer(WriteOutcome::Failure(message)) == Err::<(), Seq<char>>(message@),
        save_answer(WriteOutcome::Failure(message)) != save_answer(WriteOutcome::Done),
{
}

/// A failed read is answered with the host's message verbatim; it is never
/// mistaken for the absent-file case, which answers the sentinel.
pub proof fn lemma_read_failure_is_an_error(message: String)
    ensures
        load_answer(ReadOutcome::Failure(message)) == Err::<Seq<char>, Seq<char>>(message@),
        load_answer(ReadOutcome::Failure(message)) != load_answer(ReadOutcome::Absent),
{
}

/// A read outcome that faithfully reports a store makes the load answer the
/// store's loaded text: stored content verbatim, the sentinel on absence.
pub proof fn lemma_faithful_read_loads_store(
    outcome: ReadOutcome,
    store: Map<Seq<char>, Seq<char>>,
    path: Seq<char>,
)
    requires
        reports_store(outcome, store, path),
    ensures
        load_answer(outcome) == Ok::<Seq<char>, Seq<char>>(loaded_text(store, path)),
{
}

} // verus!
