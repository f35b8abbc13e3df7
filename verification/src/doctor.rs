//! The decisions of the `doctor` diagnostic: which Herdr CLI call comes next and what
//! the diagnosis says.
use crate::herdr::{
    answer, answer_of, detector_args, detector_call, enabled, native_detector, native_support,
    registration, words, Reply,
};
use crate::text::{trim_text, trimmed};
use vstd::prelude::*;
use vstd::utf8::{decode_utf8, valid_utf8};

verus! {

/// What the diagnosis found.
pub enum DoctorReport {
    /// `HERDR_BIN_PATH` is not set.
    MissingBin,
    /// A call to Herdr failed.
    Unavailable,
    /// All calls were made.
    Checked {
        /// Whether Herdr detects Jcode natively.
        supported: bool,
        /// Whether the plugin is registered and enabled (`None` when Herdr did not say).
        registered: Option<bool>,
        /// Whether `JCODE_HOOK_SESSION_START` overrides the configured hook.
        overridden: bool,
        /// What `herdr --version` printed.
        version_output: Vec<u8>,
    },
}

/// The overall status of a diagnosis.
pub enum DoctorStatus {
    Ready,
    UnsupportedHost,
    Unavailable,
}

/// The status of a diagnosis: `Ready` when Herdr detects Jcode, the plugin is registered
/// and enabled and no environment variable overrides the hook; `UnsupportedHost` when
/// Herdr does not detect Jcode; `Unavailable` otherwise.
pub open spec fn doctor_status(r: DoctorReport) -> DoctorStatus {
    match r {
        DoctorReport::Checked { supported, registered, overridden, .. } => if !supported {
            DoctorStatus::UnsupportedHost
        } else if registered == Some(true) && !overridden {
            DoctorStatus::Ready
        } else {
            DoctorStatus::Unavailable
        },
        _ => DoctorStatus::Unavailable,
    }
}

impl DoctorReport {
    /// The status of this diagnosis.
    pub fn status(&self) -> (r: DoctorStatus)
        ensures
            r == doctor_status(*self),
    {
        match self {
            DoctorReport::Checked { supported, registered, overridden, .. } => if !*supported {
                DoctorStatus::UnsupportedHost
            } else if matches!(registered, Some(true)) && !*overridden {
                DoctorStatus::Ready
            } else {
                DoctorStatus::Unavailable
            },
            _ => DoctorStatus::Unavailable,
        }
    }
}

/// The label of a diagnosis status.
pub open spec fn doctor_label(s: DoctorStatus) -> Seq<char> {
    match s {
        DoctorStatus::Ready => "ready"@,
        DoctorStatus::UnsupportedHost => "unsupported_host"@,
        DoctorStatus::Unavailable => "unavailable"@,
    }
}

impl DoctorStatus {
    /// The status as the diagnosis states it.
    pub fn label(&self) -> (r: &'static str)
        ensures
            r@ == doctor_label(*self),
    {
        match self {
            DoctorStatus::Ready => "ready",
            DoctorStatus::UnsupportedHost => "unsupported_host",
            DoctorStatus::Unavailable => "unavailable",
        }
    }
}

/// The text `String::from_utf8_lossy` makes of bytes.
pub uninterp spec fn lossy_text(bytes: Seq<u8>) -> Seq<char>;

/// `String::from_utf8_lossy`: the bytes as text, each invalid sequence replaced.
#[verifier::external_body]
fn from_utf8_lossy(bytes: &[u8]) -> (r: String)
    ensures
        r@ == lossy_text(bytes@),
        valid_utf8(bytes@) ==> r@ == decode_utf8(bytes@),
{
    String::from_utf8_lossy(bytes).into_owned()
}

/// The Herdr version as the diagnosis reports it: the output of `herdr --version`, read
/// as text and trimmed.
pub fn version_text(output: &[u8]) -> (r: String)
    ensures
        r@ == trimmed(lossy_text(output@)),
{
    let text = from_utf8_lossy(output);
    trim_text(text.as_str())
}

/// Where a diagnosis stands: the answer it waits for.
pub enum DoctorStage {
    Version,
    Detector(Vec<u8>),
    Plugins(Vec<u8>, bool),
    Finished,
}

/// A diagnosis in progress.
pub struct Doctor {
    pub overridden: bool,
    pub stage: DoctorStage,
}

/// What to do next: call Herdr's CLI, or print the diagnosis.
pub enum DoctorStep {
    Call(Vec<String>),
    Finish(DoctorReport),
}

/// A step with its arguments as texts.
pub enum DoctorStepView {
    Call(Seq<Seq<char>>),
    Finish(DoctorReport),
}

impl DoctorStep {
    pub open spec fn view(self) -> DoctorStepView {
        match self {
            DoctorStep::Call(v) => DoctorStepView::Call(words(v@)),
            DoctorStep::Finish(r) => DoctorStepView::Finish(r),
        }
    }
}

/// The diagnosis in `d` ends with `r`.
pub open spec fn doctor_finish(d: Doctor, r: DoctorReport) -> (Doctor, DoctorStepView) {
    (Doctor { overridden: d.overridden, stage: DoctorStage::Finished }, DoctorStepView::Finish(r))
}

/// The next step of the diagnosis in `d` given Herdr's reply: the version, then the
/// agent detector, then the plugin list; a failed version or detector call makes the
/// diagnosis unavailable, a failed plugin list leaves the registration unknown.
pub open spec fn doctor_step(d: Doctor, reply: Reply) -> (Doctor, DoctorStepView) {
    match d.stage {
        DoctorStage::Version => match reply.output {
            None => doctor_finish(d, DoctorReport::Unavailable),
            Some(out) => (
                Doctor { overridden: d.overridden, stage: DoctorStage::Detector(out) },
                DoctorStepView::Call(detector_args()),
            ),
        },
        DoctorStage::Detector(out) => match answer(reply) {
            None => doctor_finish(d, DoctorReport::Unavailable),
            Some(v) => (
                Doctor { overridden: d.overridden, stage: DoctorStage::Plugins(out, native_support(v)) },
                DoctorStepView::Call(crate::herdr::plugin_list_args()),
            ),
        },
        DoctorStage::Plugins(out, supported) => doctor_finish(
            d,
            DoctorReport::Checked {
                supported,
                registered: match answer(reply) {
                    Some(v) => registration(v),
                    None => None,
                },
                overridden: d.overridden,
                version_output: out,
            },
        ),
        DoctorStage::Finished => doctor_finish(d, DoctorReport::Unavailable),
    }
}

impl Doctor {
    /// A new diagnosis: without a Herdr binary it ends at once, otherwise it first asks
    /// for Herdr's version.
    pub fn start(has_bin: bool, overridden: bool) -> (r: (Doctor, DoctorStep))
        ensures
            !has_bin ==> r.0 == (Doctor { overridden, stage: DoctorStage::Finished }) && r.1.view()
                == DoctorStepView::Finish(DoctorReport::MissingBin),
            has_bin ==> r.0 == (Doctor { overridden, stage: DoctorStage::Version }) && r.1.view()
                == DoctorStepView::Call(seq!["--version"@]),
    {
        if !has_bin {
            return (
                Doctor { overridden, stage: DoctorStage::Finished },
                DoctorStep::Finish(DoctorReport::MissingBin),
            );
        }
        let mut args = Vec::new();
        crate::herdr::push_word(&mut args, "--version");
        assert(words(args@) =~= seq!["--version"@]);
        (Doctor { overridden, stage: DoctorStage::Version }, DoctorStep::Call(args))
    }

    /// The next step given Herdr's reply to the last call.
    pub fn step(self, reply: Reply) -> (r: (Doctor, DoctorStep))
        ensures
            (r.0, r.1.view()) == doctor_step(self, reply),
    {
        let Doctor { overridden, stage } = self;
        match stage {
            DoctorStage::Version => match reply.output {
                None => (
                    Doctor { overridden, stage: DoctorStage::Finished },
                    DoctorStep::Finish(DoctorReport::Unavailable),
                ),
                Some(out) => (
                    Doctor { overridden, stage: DoctorStage::Detector(out) },
                    DoctorStep::Call(detector_call()),
                ),
            },
            DoctorStage::Detector(out) => match answer_of(reply) {
                None => (
                    Doctor { overridden, stage: DoctorStage::Finished },
                    DoctorStep::Finish(DoctorReport::Unavailable),
                ),
                Some(v) => {
                    let supported = native_detector(&v);
                    (
                        Doctor { overridden, stage: DoctorStage::Plugins(out, supported) },
                        DoctorStep::Call(crate::herdr::plugin_list_call()),
                    )
                },
            },
            DoctorStage::Plugins(out, supported) => {
                let registered = match answer_of(reply) {
                    Some(v) => enabled(&v),
                    None => None,
                };
                (
                    Doctor { overridden, stage: DoctorStage::Finished },
                    DoctorStep::Finish(
                        DoctorReport::Checked { supported, registered, overridden, version_output: out },
                    ),
                )
            },
            DoctorStage::Finished => (
                Doctor { overridden, stage: DoctorStage::Finished },
                DoctorStep::Finish(DoctorReport::Unavailable),
            ),
        }
    }
}

/// A diagnosis is ready exactly when every call was made, Herdr detects Jcode natively,
/// `plugin list` registered the plugin as enabled, and no environment variable overrides
/// the hook; and the step that ends a diagnosis as ready is the one that read such a
/// `plugin list` answer.
pub proof fn law_ready_needs_everything(r: DoctorReport, d: Doctor, reply: Reply)
    ensures
        doctor_status(r) == DoctorStatus::Ready <==> (r matches DoctorReport::Checked {
            supported,
            registered,
            overridden,
            ..
        } && supported && registered == Some(true) && !overridden),
        (doctor_step(d, reply).1 matches DoctorStepView::Finish(x) && doctor_status(x)
            == DoctorStatus::Ready) ==> d.stage is Plugins && d.stage->Plugins_1
            && answer(reply) is Some && registration(answer(reply)->Some_0) == Some(true)
            && !d.overridden,
{
}

} // verus!
