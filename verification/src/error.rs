//! What can go wrong between the effect and the device.

use vstd::prelude::*;

verus! {

/// The kinds of failure that a device reports.
#[derive(Clone, Copy, Debug, PartialEq, Eq, Structural)]
pub enum FailureClass {
    /// The device refused a request as invalid.
    Validation,
    /// The device ran out of memory.
    OutOfMemory,
    /// The device failed for a reason of its own.
    Internal,
}

/// What a device answers when it is asked what went wrong in one class of
/// failure while it was watched.
#[derive(Debug)]
pub enum Answer {
    /// Nothing went wrong.
    Clear,
    /// Something went wrong; this is the text of the first failure.
    Failed(String),
    /// The device has not answered yet.
    NotReady,
}

/// The answers of a device for all three classes of failure.
#[derive(Debug)]
pub struct Reports {
    pub validation: Answer,
    pub out_of_memory: Answer,
    pub internal: Answer,
}

/// The mathematical content of an [`Answer`].
pub enum AnswerView {
    Clear,
    Failed(Seq<char>),
    NotReady,
}

impl View for Answer {
    type V = AnswerView;

    open spec fn view(&self) -> AnswerView {
        match self {
            Answer::Clear => AnswerView::Clear,
            Answer::Failed(message) => AnswerView::Failed(message@),
            Answer::NotReady => AnswerView::NotReady,
        }
    }
}

impl Reports {
    /// Whether the device answered for every class that nothing went wrong.
    pub open spec fn spec_clear(&self) -> bool {
        self.validation is Clear && self.out_of_memory is Clear && self.internal is Clear
    }
}

/// Why an operation of the effect failed.
#[derive(Debug)]
pub enum GlowError {
    /// A buffer of `size` bytes was asked of a device that allows `limit`.
    BufferTooLarge { size: u64, limit: u64 },
    /// The device reported a failure while the operation ran.
    Device { class: FailureClass, message: String },
    /// The device did not say whether a failure of this class occurred, so
    /// what the operation made cannot be relied on.
    Unanswered { class: FailureClass },
    /// The device handed out one texture for both offscreen surfaces, which
    /// the passes of the effect have to keep apart.
    SharedSurface,
}

/// The mathematical content of a [`GlowError`].
pub enum GlowErrorView {
    BufferTooLarge { size: u64, limit: u64 },
    Device { class: FailureClass, message: Seq<char> },
    Unanswered { class: FailureClass },
    SharedSurface,
}

impl View for GlowError {
    type V = GlowErrorView;

    open spec fn view(&self) -> GlowErrorView {
        match self {
            GlowError::BufferTooLarge { size, limit } => GlowErrorView::BufferTooLarge {
                size: *size,
                limit: *limit,
            },
            GlowError::Device { class, message } => GlowErrorView::Device {
                class: *class,
                message: message@,
            },
            GlowError::Unanswered { class } => GlowErrorView::Unanswered { class: *class },
            GlowError::SharedSurface => GlowErrorView::SharedSurface,
        }
    }
}

impl GlowError {
    /// The failure class of an error that rests on the device's answer;
    /// `None` for an error that the library found before it asked the device.
    pub fn class(&self) -> (class: Option<FailureClass>)
        ensures
            class == match self@ {
                GlowErrorView::BufferTooLarge { .. } => None,
                GlowErrorView::Device { class, .. } => Some(class),
                GlowErrorView::Unanswered { class } => Some(class),
                GlowErrorView::SharedSurface => None,
            },
    {
        match self {
            GlowError::BufferTooLarge { .. } => None,
            GlowError::Device { class, .. } => Some(*class),
            GlowError::Unanswered { class } => Some(*class),
            GlowError::SharedSurface => None,
        }
    }
}

/// What one answer means for the operation that was watched: a failure is
/// an error of its class, and so is an answer that has not come.
pub open spec fn spec_verdict(class: FailureClass, answer: AnswerView) -> Option<GlowErrorView> {
    match answer {
        AnswerView::Clear => None,
        AnswerView::Failed(message) => Some(GlowErrorView::Device { class, message }),
        AnswerView::NotReady => Some(GlowErrorView::Unanswered { class }),
    }
}

/// The error that a watched operation ends with, given the answers of the
/// device: that of validation if there is one, else that of memory, else
/// that of the rest; none when every answer is clear.
pub open spec fn spec_judge(
    validation: AnswerView,
    out_of_memory: AnswerView,
    internal: AnswerView,
) -> Option<GlowErrorView> {
    if !(validation is Clear) {
        spec_verdict(FailureClass::Validation, validation)
    } else if !(out_of_memory is Clear) {
        spec_verdict(FailureClass::OutOfMemory, out_of_memory)
    } else {
        spec_verdict(FailureClass::Internal, internal)
    }
}

/// The view of an optional error.
pub open spec fn error_view(error: Option<GlowError>) -> Option<GlowErrorView> {
    match error {
        Some(e) => Some(e@),
        None => None,
    }
}

/// What one answer means for the operation that was watched.
pub fn verdict(class: FailureClass, answer: Answer) -> (error: Option<GlowError>)
    ensures
        error_view(error) == spec_verdict(class, answer@),
{
    match answer {
        Answer::Clear => None,
        Answer::Failed(message) => Some(GlowError::Device { class, message }),
        Answer::NotReady => Some(GlowError::Unanswered { class }),
    }
}

/// Decides from the answers of the device how a watched operation ends.
pub fn judge(reports: Reports) -> (error: Option<GlowError>)
    ensures
        error_view(error) == spec_judge(
            reports.validation@,
            reports.out_of_memory@,
            reports.internal@,
        ),
        error is None <==> reports.spec_clear(),
        error matches Some(e) ==> e@ is Device || e@ is Unanswered,
{
    let Reports { validation, out_of_memory, internal } = reports;
    match validation {
        Answer::Clear => match out_of_memory {
            Answer::Clear => verdict(FailureClass::Internal, internal),
            other => verdict(FailureClass::OutOfMemory, other),
        },
        other => verdict(FailureClass::Validation, other),
    }
}

} // verus!
