use vstd::prelude::*;

use crate::js::arguments::{argument_text, first_string_argument};

verus! {

/// How a clipboard promise settles: fulfilled with a value (`None` for
/// `undefined`, else a string), or rejected with a reason.
pub enum PromiseSettlement {
    Fulfill(Option<String>),
    Reject(String),
}

/// A settlement as text values.
pub enum SettlementView {
    Fulfill(Option<Seq<char>>),
    Reject(Seq<char>),
}

impl View for PromiseSettlement {
    type V = SettlementView;

    open spec fn view(&self) -> SettlementView {
        match self {
            PromiseSettlement::Fulfill(None) => SettlementView::Fulfill(None),
            PromiseSettlement::Fulfill(Some(text)) => SettlementView::Fulfill(Some(text@)),
            PromiseSettlement::Reject(reason) => SettlementView::Reject(reason@),
        }
    }
}

/// What to do after asking one clipboard: settle the promise, or ask the
/// fallback clipboard.
pub enum ClipboardStep {
    Settle(PromiseSettlement),
    UseFallback,
}

/// A step as text values.
pub enum StepView {
    Settle(SettlementView),
    UseFallback,
}

impl View for ClipboardStep {
    type V = StepView;

    open spec fn view(&self) -> StepView {
        match self {
            ClipboardStep::Settle(settlement) => StepView::Settle(settlement@),
            ClipboardStep::UseFallback => StepView::UseFallback,
        }
    }
}

/// What the Wayland clipboard gave back to a read: no clipboard could be
/// reached, the pipe could not be read, or the bytes read.
pub enum PrimaryRead {
    Unavailable,
    ReadFailed,
    Bytes(Vec<u8>),
}

/// The text that `String::from_utf8_lossy` makes of `bytes`.
pub uninterp spec fn utf8_lossy(bytes: Seq<u8>) -> Seq<char>;

/// Wraps `String::from_utf8_lossy`. The contract claims that the text is the
/// one named `utf8_lossy` for these bytes and that, as std's documentation
/// says, valid UTF-8 is decoded unchanged; how invalid sequences are replaced
/// by U+FFFD is left unsaid.
#[verifier::external_body]
fn decode_utf8_lossy(bytes: &[u8]) -> (text: String)
    ensures
        text@ == utf8_lossy(bytes@),
        vstd::utf8::valid_utf8(bytes@) ==> text@ == vstd::utf8::decode_utf8(bytes@),
{
    String::from_utf8_lossy(bytes).to_string()
}

/// The reason given when a write has nothing to copy.
pub open spec fn no_data_reason() -> Seq<char> {
    "No data to copy"@
}

/// The reason given when no clipboard accepted a write.
pub open spec fn copy_failed_reason() -> Seq<char> {
    "Unable to copy"@
}

/// The reason given when no clipboard could be read.
pub open spec fn read_failed_reason() -> Seq<char> {
    "Unable to read"@
}

/// The step after the Wayland clipboard took (or refused) a write.
pub open spec fn primary_write_step(accepted: bool) -> StepView {
    if accepted {
        StepView::Settle(SettlementView::Fulfill(None))
    } else {
        StepView::UseFallback
    }
}

/// The settlement after the fallback clipboard took (or refused) a write.
pub open spec fn fallback_write_settlement(accepted: bool) -> SettlementView {
    if accepted {
        SettlementView::Fulfill(None)
    } else {
        SettlementView::Reject(copy_failed_reason())
    }
}

/// The step after reading the Wayland clipboard.
pub open spec fn primary_read_step(read: PrimaryRead) -> StepView {
    match read {
        PrimaryRead::Unavailable => StepView::UseFallback,
        PrimaryRead::ReadFailed => StepView::Settle(SettlementView::Reject(read_failed_reason())),
        PrimaryRead::Bytes(bytes) => StepView::Settle(SettlementView::Fulfill(Some(utf8_lossy(bytes@)))),
    }
}

/// The settlement after reading the fallback clipboard.
pub open spec fn fallback_read_settlement(read: Option<Seq<char>>) -> SettlementView {
    match read {
        Some(text) => SettlementView::Fulfill(Some(text)),
        None => SettlementView::Reject(read_failed_reason()),
    }
}

/// The `clipboard` object of the JavaScript environment.
pub struct Clipboard;

impl Clipboard {
    /// `clipboard.writeText(data)`, first step: with no argument the promise
    /// is rejected at once; else the text to copy is the first argument's
    /// string value (empty text when it is not a string). Each entry of
    /// `arguments` is an argument's string value, if it is a string.
    pub fn write_text_request(arguments: &Vec<Option<String>>) -> (request: Result<
        String,
        PromiseSettlement,
    >)
        ensures
            arguments@.len() == 0 ==> (request matches Err(settlement) && settlement@
                == SettlementView::Reject(no_data_reason())),
            arguments@.len() > 0 ==> (request matches Ok(text) && text@ == argument_text(
                arguments@[0],
            )),
    {
        match first_string_argument(arguments) {
            None => Err(PromiseSettlement::Reject(String::from_str("No data to copy"))),
            Some(text) => Ok(text),
        }
    }

    /// After the Wayland clipboard: fulfilled if it took the text, else try
    /// the fallback clipboard.
    pub fn after_primary_write(accepted: bool) -> (step: ClipboardStep)
        ensures
            step@ == primary_write_step(accepted),
    {
        if accepted {
            ClipboardStep::Settle(PromiseSettlement::Fulfill(None))
        } else {
            ClipboardStep::UseFallback
        }
    }

    /// After the fallback clipboard: fulfilled if it took the text, else
    /// rejected with "Unable to copy".
    pub fn after_fallback_write(accepted: bool) -> (settlement: PromiseSettlement)
        ensures
            settlement@ == fallback_write_settlement(accepted),
    {
        if accepted {
            PromiseSettlement::Fulfill(None)
        } else {
            PromiseSettlement::Reject(String::from_str("Unable to copy"))
        }
    }

    /// `clipboard.readText()`, after the Wayland clipboard: its bytes, read
    /// as UTF-8 with invalid sequences replaced, fulfil the promise; a pipe
    /// that cannot be read rejects it with "Unable to read"; with no Wayland
    /// clipboard, try the fallback clipboard.
    pub fn after_primary_read(read: PrimaryRead) -> (step: ClipboardStep)
        ensures
            step@ == primary_read_step(read),
    {
        match read {
            PrimaryRead::Unavailable => ClipboardStep::UseFallback,
            PrimaryRead::ReadFailed => ClipboardStep::Settle(
                PromiseSettlement::Reject(String::from_str("Unable to read")),
            ),
            PrimaryRead::Bytes(bytes) => {
                let text = decode_utf8_lossy(bytes.as_slice());
                ClipboardStep::Settle(PromiseSettlement::Fulfill(Some(text)))
            },
        }
    }

    /// After the fallback clipboard: its text fulfils the promise; if it
    /// could not be read, rejected with "Unable to read".
    pub fn after_fallback_read(read: Option<String>) -> (settlement: PromiseSettlement)
        ensures
            settlement@ == fallback_read_settlement(
                match read {
                    Some(text) => Some(text@),
                    None => None,
                },
            ),
    {
        match read {
            Some(text) => PromiseSettlement::Fulfill(Some(text)),
            None => PromiseSettlement::Reject(String::from_str("Unable to read")),
        }
    }
}

/// A write is fulfilled exactly when one of the two clipboards takes the
/// text: the fallback is asked only when the Wayland clipboard refused, and a
/// refusal by both rejects the promise with "Unable to copy".
pub proof fn lemma_write_fulfilled_iff_some_clipboard_accepts(primary: bool, fallback: bool)
    ensures
        primary ==> primary_write_step(primary) == StepView::Settle(SettlementView::Fulfill(None)),
        !primary ==> primary_write_step(primary) == StepView::UseFallback,
        !primary ==> (fallback_write_settlement(fallback) == SettlementView::Fulfill(None)
            <==> fallback),
        !primary && !fallback ==> fallback_write_settlement(fallback) == SettlementView::Reject(
            copy_failed_reason(),
        ),
{
}

/// A read asks the fallback clipboard exactly when the Wayland clipboard
/// could not be reached.
pub proof fn lemma_read_uses_fallback_only_when_unavailable(read: PrimaryRead)
    ensures
        primary_read_step(read) == StepView::UseFallback <==> read is Unavailable,
{
}

} // verus!
