//! The rules of one transform: the dimension limits, the resize that a
//! request leads to, and the options the encoder is given.
//!
//! Decoding, resizing and encoding pixels are the image library's work. This
//! module decides what it is asked to do, from the dimensions of the decoded
//! source and the options of the request.

use crate::error::{AppError, AppErrorView};
use crate::text::{decimal_digits, push_decimal, same_text};
use vstd::prelude::*;

verus! {

/// No source image wider or higher than this is processed.
pub const MAX_INPUT_DIMENSION: i32 = 5000;

/// No output wider or higher than this is asked for.
pub const MAX_OUTPUT_DIMENSION: u32 = 4000;

/// The options of one transform.
#[derive(Debug, Clone, PartialEq, Eq)]
pub struct ProcessOptions {
    /// The target width, if any. Where it is given, it alone governs sizing.
    pub width: Option<u32>,
    /// The target height, if any. It counts only where no width is given.
    pub height: Option<u32>,
    /// The suffix of the output format, with its dot.
    pub format_suffix: String,
}

/// The mathematical value of [`ProcessOptions`].
pub struct ProcessOptionsView {
    pub width: Option<u32>,
    pub height: Option<u32>,
    pub format_suffix: Seq<char>,
}

impl View for ProcessOptions {
    type V = ProcessOptionsView;

    open spec fn view(&self) -> ProcessOptionsView {
        ProcessOptionsView {
            width: self.width,
            height: self.height,
            format_suffix: self.format_suffix@,
        }
    }
}

/// The resize step of a transform.
#[derive(Clone, Copy, Debug, PartialEq, Eq, Structural)]
pub enum Resize {
    /// The image keeps its dimensions and is only encoded anew.
    Keep,
    /// The image is shrunk to this width, its aspect ratio kept.
    ToWidth(u32),
    /// The image is scaled in both directions by `target / current`, which
    /// brings its height from `current` to `target`.
    ByHeight { target: u32, current: i32 },
}

/// What the image library is asked to do with a decoded source.
#[derive(Debug, Clone, PartialEq, Eq)]
pub struct TransformPlan {
    /// The resize step.
    pub resize: Resize,
    /// The format suffix with the encoder's parameters, as the image library
    /// reads them when it writes the image to a buffer.
    pub save_options: String,
}

/// The mathematical value of a [`TransformPlan`].
pub struct TransformPlanView {
    pub resize: Resize,
    pub save_options: Seq<char>,
}

impl View for TransformPlan {
    type V = TransformPlanView;

    open spec fn view(&self) -> TransformPlanView {
        TransformPlanView { resize: self.resize, save_options: self.save_options@ }
    }
}

/// The message for a source image beyond the input limit.
pub open spec fn oversized_source_message() -> Seq<char> {
    "Image exceed the max allowed size of "@ + decimal_digits(MAX_INPUT_DIMENSION as nat) + "x"@
        + decimal_digits(MAX_INPUT_DIMENSION as nat)
}

/// The message for a requested dimension beyond the output limit.
pub open spec fn oversized_request_message(target: u32) -> Seq<char> {
    "Requested width ("@ + decimal_digits(target as nat) + ") exceeds the limit of "@
        + decimal_digits(MAX_OUTPUT_DIMENSION as nat)
}

/// The resize step for a source of the given dimensions, or the message of
/// the limit that forbids it.
///
/// A source beyond the input limit is refused before the request is looked
/// at. A width, where given, is held to the output limit and governs alone;
/// the height is looked at only where no width is given. The image is
/// resized only to a target strictly below its own dimension: nothing is
/// ever enlarged.
pub open spec fn planned_resize(
    current_width: i32,
    current_height: i32,
    width: Option<u32>,
    height: Option<u32>,
) -> Result<Resize, Seq<char>> {
    if current_width > MAX_INPUT_DIMENSION || current_height > MAX_INPUT_DIMENSION {
        Err(oversized_source_message())
    } else {
        match width {
            Some(target) => if target > MAX_OUTPUT_DIMENSION {
                Err(oversized_request_message(target))
            } else if target < current_width {
                Ok(Resize::ToWidth(target))
            } else {
                Ok(Resize::Keep)
            },
            None => match height {
                Some(target) => if target > MAX_OUTPUT_DIMENSION {
                    Err(oversized_request_message(target))
                } else if target < current_height {
                    Ok(Resize::ByHeight { target, current: current_height })
                } else {
                    Ok(Resize::Keep)
                },
                None => Ok(Resize::Keep),
            },
        }
    }
}

/// The encoder's options for a format suffix: quality 50 at speed 6 for
/// AVIF, quality 75 for WebP, the encoder's defaults for anything else.
pub open spec fn save_options_of(format_suffix: Seq<char>) -> Seq<char> {
    if format_suffix == ".avif"@ {
        format_suffix + "[Q=50,speed=6]"@
    } else if format_suffix == ".webp"@ {
        format_suffix + "[Q=75]"@
    } else {
        format_suffix
    }
}

/// The plan for a source of the given dimensions under the given options,
/// or the validation error that refuses it.
pub open spec fn planned(
    current_width: i32,
    current_height: i32,
    options: ProcessOptionsView,
) -> Result<TransformPlanView, AppErrorView> {
    match planned_resize(current_width, current_height, options.width, options.height) {
        Ok(resize) => Ok(
            TransformPlanView { resize, save_options: save_options_of(options.format_suffix) },
        ),
        Err(message) => Err(AppErrorView::ValidationError(message)),
    }
}

/// The validation error for a source image beyond the input limit.
fn oversized_source() -> (e: AppError)
    ensures
        e@ == AppErrorView::ValidationError(oversized_source_message()),
{
    let mut message = String::from_str("Image exceed the max allowed size of ");
    push_decimal(&mut message, MAX_INPUT_DIMENSION as u64);
    message.append("x");
    push_decimal(&mut message, MAX_INPUT_DIMENSION as u64);
    AppError::ValidationError(message)
}

/// The validation error for a requested dimension beyond the output limit.
fn oversized_request(target: u32) -> (e: AppError)
    ensures
        e@ == AppErrorView::ValidationError(oversized_request_message(target)),
{
    let mut message = String::from_str("Requested width (");
    push_decimal(&mut message, target as u64);
    message.append(") exceeds the limit of ");
    push_decimal(&mut message, MAX_OUTPUT_DIMENSION as u64);
    AppError::ValidationError(message)
}

/// Decides the resize step for a source of the given dimensions.
pub fn plan_resize(
    current_width: i32,
    current_height: i32,
    width: Option<u32>,
    height: Option<u32>,
) -> (outcome: Result<Resize, AppError>)
    ensures
        match outcome {
            Ok(resize) => planned_resize(current_width, current_height, width, height) == Ok::<
                Resize,
                Seq<char>,
            >(resize),
            Err(e) => planned_resize(current_width, current_height, width, height) is Err
                && e@ == AppErrorView::ValidationError(
                planned_resize(current_width, current_height, width, height)->Err_0,
            ),
        },
{
    if current_width > MAX_INPUT_DIMENSION || current_height > MAX_INPUT_DIMENSION {
        return Err(oversized_source());
    }
    if let Some(target) = width {
        if target > MAX_OUTPUT_DIMENSION {
            return Err(oversized_request(target));
        }
        if (target as i64) < (current_width as i64) {
            return Ok(Resize::ToWidth(target));
        }
    } else if let Some(target) = height {
        if target > MAX_OUTPUT_DIMENSION {
            return Err(oversized_request(target));
        }
        if (target as i64) < (current_height as i64) {
            return Ok(Resize::ByHeight { target, current: current_height });
        }
    }
    Ok(Resize::Keep)
}

/// The encoder's options for a format suffix.
pub fn save_options(format_suffix: &str) -> (options: String)
    ensures
        options@ == save_options_of(format_suffix@),
{
    let options = String::from_str(format_suffix);
    if same_text(format_suffix, ".avif") {
        options.concat("[Q=50,speed=6]")
    } else if same_text(format_suffix, ".webp") {
        options.concat("[Q=75]")
    } else {
        options
    }
}

/// Plans the transform of a decoded source image.
///
/// `current_width` and `current_height` are the dimensions of the source as
/// the image library decoded it. The plan says how the image is resized, if
/// at all, and with which options it is encoded. A source or a request
/// beyond the limits is refused with a validation error, and nothing is
/// planned.
pub fn process_image(current_width: i32, current_height: i32, options: ProcessOptions) -> (outcome:
    Result<TransformPlan, AppError>)
    ensures
        match outcome {
            Ok(plan) => planned(current_width, current_height, options@) == Ok::<
                TransformPlanView,
                AppErrorView,
            >(plan@),
            Err(e) => planned(current_width, current_height, options@) == Err::<
                TransformPlanView,
                AppErrorView,
            >(e@),
        },
{
    match plan_resize(current_width, current_height, options.width, options.height) {
        Ok(resize) => {
            let save_options = save_options(options.format_suffix.as_str());
            Ok(TransformPlan { resize, save_options })
        },
        Err(e) => Err(e),
    }
}

/// The dimension that governs the sizing of a request, if any: the width
/// where one is given, else the height.
pub open spec fn governing_target(options: ProcessOptionsView) -> Option<u32> {
    match options.width {
        Some(target) => Some(target),
        None => options.height,
    }
}

/// The dimension of the source that the governing target is held against.
pub open spec fn governed_dimension(
    current_width: i32,
    current_height: i32,
    options: ProcessOptionsView,
) -> i32 {
    if options.width is Some {
        current_width
    } else {
        current_height
    }
}

/// A source image wider or higher than the input limit is refused with the
/// validation error that names the limit, whatever the request asks for.
pub proof fn lemma_oversized_source_is_refused(
    current_width: i32,
    current_height: i32,
    options: ProcessOptionsView,
)
    requires
        current_width > MAX_INPUT_DIMENSION || current_height > MAX_INPUT_DIMENSION,
    ensures
        planned(current_width, current_height, options) == Err::<TransformPlanView, AppErrorView>(
            AppErrorView::ValidationError(oversized_source_message()),
        ),
{
}

/// A request whose governing target is beyond the output limit is refused
/// with a validation error, whatever the source. So is every request for a
/// width beyond the limit, and every request for such a height that gives
/// no width.
pub proof fn lemma_oversized_request_is_refused(
    current_width: i32,
    current_height: i32,
    options: ProcessOptionsView,
)
    requires
        governing_target(options) is Some,
        governing_target(options)->0 > MAX_OUTPUT_DIMENSION,
    ensures
        planned(current_width, current_height, options) is Err,
        planned(current_width, current_height, options)->Err_0 is ValidationError,
        current_width <= MAX_INPUT_DIMENSION && current_height <= MAX_INPUT_DIMENSION ==> planned(
            current_width,
            current_height,
            options,
        )->Err_0 == AppErrorView::ValidationError(
            oversized_request_message(governing_target(options)->0),
        ),
{
}

/// A target at or above the source's own dimension leads to no resize: the
/// image keeps its dimensions.
pub proof fn lemma_no_resize_at_or_above_source(
    current_width: i32,
    current_height: i32,
    options: ProcessOptionsView,
)
    requires
        planned(current_width, current_height, options) is Ok,
        governing_target(options) is Some,
        governing_target(options)->0 >= governed_dimension(current_width, current_height, options),
    ensures
        planned(current_width, current_height, options)->Ok_0.resize == Resize::Keep,
{
}

/// Nothing is ever enlarged: a planned resize has a target strictly below
/// the source's dimension, and within the output limit.
pub proof fn lemma_never_enlarges(
    current_width: i32,
    current_height: i32,
    options: ProcessOptionsView,
)
    requires
        planned(current_width, current_height, options) is Ok,
    ensures
        match planned(current_width, current_height, options)->Ok_0.resize {
            Resize::Keep => true,
            Resize::ToWidth(target) => options.width == Some(target) && target < current_width
                && target <= MAX_OUTPUT_DIMENSION,
            Resize::ByHeight { target, current } => options.width is None && options.height
                == Some(target) && current == current_height && target < current && target
                <= MAX_OUTPUT_DIMENSION,
        },
{
}

/// Where a width is given, the height counts for nothing: the outcome is
/// the same whatever the height, also where there is none.
pub proof fn lemma_width_governs(
    current_width: i32,
    current_height: i32,
    width: u32,
    height: Option<u32>,
    other_height: Option<u32>,
    format_suffix: Seq<char>,
)
    ensures
        planned(
            current_width,
            current_height,
            ProcessOptionsView { width: Some(width), height, format_suffix },
        ) == planned(
            current_width,
            current_height,
            ProcessOptionsView { width: Some(width), height: other_height, format_suffix },
        ),
{
}

} // verus!
