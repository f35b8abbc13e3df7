//! Publishing the Jcode model's short name as display-only pane metadata.
use crate::herdr::{answer, answer_of, enabled, push_word, registration, words, Reply, MODEL_SOURCE};
use crate::lifecycle::{usable, SkipReason};
use crate::text::{joined, same_text, trim_text, trimmed};
use vstd::prelude::*;

verus! {

/// The number of `-` in `t`.
pub open spec fn dashes(t: Seq<char>) -> int
    decreases t.len(),
{
    if t.len() == 0 {
        0
    } else {
        dashes(t.drop_last()) + if t.last() == '-' {
            1int
        } else {
            0int
        }
    }
}

/// The position of the last `-` in `t`, or -1.
pub open spec fn last_dash(t: Seq<char>) -> int
    decreases t.len(),
{
    if t.len() == 0 {
        -1
    } else if t.last() == '-' {
        t.len() - 1
    } else {
        last_dash(t.drop_last())
    }
}

/// Whether every character of `s` is an ASCII digit.
pub open spec fn digits_only(s: Seq<char>) -> bool {
    forall|i: int| 0 <= i < s.len() ==> '0' <= #[trigger] s[i] <= '9'
}

/// The short name of a model: the trimmed name, without its last `-`-separated part
/// when the name has at least four such parts and the last is a date-like run of six or
/// more digits (`mistral-large-2-20250219` becomes `mistral-large-2`).
pub open spec fn short_name(model: Seq<char>) -> Seq<char> {
    let t = trimmed(model);
    let k = last_dash(t);
    let tail = t.subrange(k + 1, t.len() as int);
    if dashes(t) >= 3 && tail.len() >= 6 && digits_only(tail) {
        t.subrange(0, k)
    } else {
        t
    }
}

proof fn lemma_last_dash(t: Seq<char>)
    ensures
        -1 <= last_dash(t) < t.len(),
        last_dash(t) >= 0 ==> t[last_dash(t)] == '-',
        forall|j: int| last_dash(t) < j < t.len() ==> t[j] != '-',
        dashes(t) > 0 ==> last_dash(t) >= 0,
        dashes(t) >= 0,
    decreases t.len(),
{
    if t.len() > 0 {
        lemma_last_dash(t.drop_last());
        assert forall|j: int| last_dash(t) < j < t.len() implies t[j] != '-' by {
            if j < t.len() - 1 {
                assert(t[j] == t.drop_last()[j]);
            }
        }
        if last_dash(t) >= 0 && t.last() != '-' {
            assert(t[last_dash(t)] == t.drop_last()[last_dash(t)]);
        }
    }
}

proof fn lemma_dashes_step(t: Seq<char>, i: int)
    requires
        0 <= i < t.len(),
    ensures
        dashes(t.take(i + 1)) == dashes(t.take(i)) + if t[i] == '-' {
            1int
        } else {
            0int
        },
{
    assert(t.take(i + 1).drop_last() =~= t.take(i));
}

proof fn lemma_last_dash_step(t: Seq<char>, i: int)
    requires
        0 <= i < t.len(),
    ensures
        last_dash(t.take(i + 1)) == if t[i] == '-' {
            i
        } else {
            last_dash(t.take(i))
        },
{
    assert(t.take(i + 1).drop_last() =~= t.take(i));
}

/// `model_short_name`: the short display name of a model.
pub fn model_short_name(model: &str) -> (r: String)
    ensures
        r@ == short_name(model@),
{
    let t = trim_text(model);
    let s = t.as_str();
    let n = s.unicode_len();
    let mut count: usize = 0;
    let mut last: Option<usize> = None;
    let mut i: usize = 0;
    while i < n
        invariant
            n == s@.len(),
            i <= n,
            count as int == dashes(s@.take(i as int)),
            count <= i,
            match last {
                Some(k) => k < i && k as int == last_dash(s@.take(i as int)),
                None => last_dash(s@.take(i as int)) == -1,
            },
        decreases n - i,
    {
        proof {
            lemma_dashes_step(s@, i as int);
            lemma_last_dash_step(s@, i as int);
        }
        if s.get_char(i) == '-' {
            count = count + 1;
            last = Some(i);
        }
        i = i + 1;
    }
    assert(s@.take(n as int) =~= s@);
    proof {
        lemma_last_dash(s@);
    }
    match last {
        Some(k) => {
            if count >= 3 && n - k - 1 >= 6 && digits_after(s, k + 1) {
                return crate::text::owned(s.substring_char(0, k));
            }
        },
        None => {},
    }
    t
}

/// Whether every character of `s` from position `from` on is an ASCII digit.
fn digits_after(s: &str, from: usize) -> (r: bool)
    requires
        from <= s@.len(),
    ensures
        r == digits_only(s@.subrange(from as int, s@.len() as int)),
{
    let n = s.unicode_len();
    let mut i: usize = from;
    while i < n
        invariant
            n == s@.len(),
            from <= i <= n,
            forall|j: int| from <= j < i ==> '0' <= #[trigger] s@[j] <= '9',
        decreases n - i,
    {
        let c = s.get_char(i);
        if !('0' <= c && c <= '9') {
            assert(s@.subrange(from as int, n as int)[i - from] == c);
            return false;
        }
        i = i + 1;
    }
    assert forall|j: int| 0 <= j < n - from implies '0' <= #[trigger] s@.subrange(
        from as int,
        n as int,
    )[j] <= '9' by {
        assert(s@.subrange(from as int, n as int)[j] == s@[j + from]);
    }
    true
}

/// What a model report prints.
pub enum ModelReport {
    Skipped(SkipReason),
    Unavailable,
    Reported { model: String, provider: Option<String> },
}

/// A model report's input, validated.
pub struct ModelInput {
    pub pane: String,
    /// The model's short name.
    pub short: String,
    /// The model's provider, when known.
    pub provider: Option<String>,
}

/// What a model report makes of its environment: `HERDR_ENV`, `JCODE_HOOK_MODEL`, the
/// pane, whether a Herdr binary is known and the provider. It proceeds only inside Herdr,
/// with a model, a usable pane and a known binary, checked in that order.
pub open spec fn model_gate(
    herdr_env: Option<String>,
    model: Seq<char>,
    pane: Option<String>,
    has_bin: bool,
) -> Option<ModelReport> {
    if !(herdr_env matches Some(e) && e@ == "1"@) {
        Some(ModelReport::Skipped(SkipReason::OutsideHerdr))
    } else if model.len() == 0 {
        Some(ModelReport::Skipped(SkipReason::NoModelInfo))
    } else if !(pane matches Some(p) && usable(p@)) {
        Some(ModelReport::Skipped(SkipReason::MissingPaneId))
    } else if !has_bin {
        Some(ModelReport::Unavailable)
    } else {
        None
    }
}

/// Checks a model report's environment, giving its validated input or the report that
/// ends it at once.
pub fn model_input(
    herdr_env: Option<String>,
    model: String,
    pane: Option<String>,
    has_bin: bool,
    provider: Option<String>,
) -> (r: Result<ModelInput, ModelReport>)
    ensures
        match model_gate(herdr_env, model@, pane, has_bin) {
            Some(x) => r == Err::<ModelInput, ModelReport>(x),
            None => r matches Ok(i) && i.pane == pane->Some_0 && i.short@ == short_name(model@)
                && i.provider == provider,
        },
{
    let inside = match &herdr_env {
        Some(e) => same_text(e.as_str(), "1"),
        None => false,
    };
    if !inside {
        return Err(ModelReport::Skipped(SkipReason::OutsideHerdr));
    }
    if model.as_str().is_empty() {
        return Err(ModelReport::Skipped(SkipReason::NoModelInfo));
    }
    let pane = match pane {
        Some(p) => if crate::lifecycle::usable_text(p.as_str()) {
            p
        } else {
            return Err(ModelReport::Skipped(SkipReason::MissingPaneId));
        },
        None => return Err(ModelReport::Skipped(SkipReason::MissingPaneId)),
    };
    if !has_bin {
        return Err(ModelReport::Unavailable);
    }
    Ok(ModelInput { pane, short: model_short_name(model.as_str()), provider })
}

/// The arguments that publish the model: `pane report-metadata` with the short name and,
/// when known, the provider as tokens.
pub open spec fn metadata_args(input: ModelInput) -> Seq<Seq<char>> {
    let base = seq![
        "pane"@,
        "report-metadata"@,
        input.pane@,
        "--source"@,
        MODEL_SOURCE@,
        "--token"@,
        "model="@ + input.short@,
    ];
    match input.provider {
        Some(p) => base + seq!["--token"@, "provider="@ + p@],
        None => base,
    }
}

/// Where a model report stands.
pub enum ModelStage {
    Plugins,
    Published,
    Finished,
}

/// A model report in progress.
pub struct ModelReporter {
    pub input: ModelInput,
    pub stage: ModelStage,
}

/// What to do next: call Herdr's CLI, or print the report.
pub enum ModelStep {
    Call(Vec<String>),
    Finish(ModelReport),
}

/// A step with its arguments as texts.
pub enum ModelStepView {
    Call(Seq<Seq<char>>),
    Finish(ModelReport),
}

impl ModelStep {
    pub open spec fn view(self) -> ModelStepView {
        match self {
            ModelStep::Call(v) => ModelStepView::Call(words(v@)),
            ModelStep::Finish(r) => ModelStepView::Finish(r),
        }
    }
}

/// The next step of a model report given Herdr's reply: the plugin must be registered
/// and enabled (a failed check counts as not), then the metadata is published; the
/// report names the model when the publishing call succeeded.
pub open spec fn model_step(m: ModelReporter, reply: Reply) -> ModelStepView {
    match m.stage {
        ModelStage::Plugins => if !(answer(reply) matches Some(v) && registration(v) == Some(true)) {
            ModelStepView::Finish(ModelReport::Skipped(SkipReason::DisabledOrUnlinked))
        } else {
            ModelStepView::Call(metadata_args(m.input))
        },
        ModelStage::Published => if reply.output is Some {
            ModelStepView::Finish(
                ModelReport::Reported { model: m.input.short, provider: m.input.provider },
            )
        } else {
            ModelStepView::Finish(ModelReport::Unavailable)
        },
        ModelStage::Finished => ModelStepView::Finish(ModelReport::Unavailable),
    }
}

/// The stage after `model_step`.
pub open spec fn model_next_stage(m: ModelReporter, reply: Reply) -> ModelStage {
    match model_step(m, reply) {
        ModelStepView::Call(_) => ModelStage::Published,
        ModelStepView::Finish(_) => ModelStage::Finished,
    }
}

impl ModelReporter {
    /// A new model report: its first call asks whether the plugin is registered.
    pub fn start(input: ModelInput) -> (r: (ModelReporter, ModelStep))
        ensures
            r.0 == (ModelReporter { input, stage: ModelStage::Plugins }),
            r.1.view() == ModelStepView::Call(crate::herdr::plugin_list_args()),
    {
        (ModelReporter { input, stage: ModelStage::Plugins }, ModelStep::Call(crate::herdr::plugin_list_call()))
    }

    /// The next step given Herdr's reply to the last call.
    pub fn step(self, reply: Reply) -> (r: (ModelReporter, ModelStep))
        ensures
            r.1.view() == model_step(self, reply),
            r.0.stage == model_next_stage(self, reply),
            match r.1 {
                ModelStep::Call(_) => r.0.input == self.input,
                ModelStep::Finish(_) => true,
            },
    {
        let ModelReporter { input, stage } = self;
        match stage {
            ModelStage::Plugins => {
                let registered = match answer_of(reply) {
                    Some(v) => enabled(&v),
                    None => None,
                };
                if !matches!(registered, Some(true)) {
                    return (
                        ModelReporter { input, stage: ModelStage::Finished },
                        ModelStep::Finish(ModelReport::Skipped(SkipReason::DisabledOrUnlinked)),
                    );
                }
                let args = metadata_call(&input);
                (ModelReporter { input, stage: ModelStage::Published }, ModelStep::Call(args))
            },
            ModelStage::Published => {
                let published = reply.output.is_some();
                let ModelInput { pane, short, provider } = input;
                let report = if published {
                    ModelReport::Reported { model: short, provider }
                } else {
                    ModelReport::Unavailable
                };
                let rest = ModelInput { pane, short: String::new(), provider: None };
                (ModelReporter { input: rest, stage: ModelStage::Finished }, ModelStep::Finish(report))
            },
            ModelStage::Finished => (
                ModelReporter { input, stage: ModelStage::Finished },
                ModelStep::Finish(ModelReport::Unavailable),
            ),
        }
    }
}

/// The arguments that publish the model.
fn metadata_call(input: &ModelInput) -> (r: Vec<String>)
    ensures
        words(r@) == metadata_args(*input),
{
    let mut v = Vec::new();
    push_word(&mut v, "pane");
    push_word(&mut v, "report-metadata");
    push_word(&mut v, input.pane.as_str());
    push_word(&mut v, "--source");
    push_word(&mut v, MODEL_SOURCE);
    push_word(&mut v, "--token");
    let token = joined("model=", input.short.as_str());
    push_word(&mut v, token.as_str());
    match &input.provider {
        Some(p) => {
            push_word(&mut v, "--token");
            let token = joined("provider=", p.as_str());
            push_word(&mut v, token.as_str());
        },
        None => {},
    }
    assert(words(v@) =~= metadata_args(*input));
    v
}

} // verus!
