//! The decisions of autoregressive text generation: which slice of the token
//! stream the model is fed at each step, at which position, which tokens the
//! repeat penalty looks at, and when generation stops.
//!
//! The caller runs the model and the sampler; this state machine says what to
//! feed them and what to do with what they return.
use vstd::prelude::*;
use tokenizers::Tokenizer;

verus! {

/// Number of generation steps when the request names no limit.
pub const DEFAULT_MAX_TOKENS: i32 = 1024;

/// A tokenizer of the `tokenizers` crate, carried through as it is.
#[verifier::external_type_specification]
#[verifier::external_body]
pub struct ExTokenizer(Tokenizer);

/// `tokenizers::Tokenizer::token_to_id`: the id of a token text, `None` when
/// the vocabulary has no such token. Nothing is stated of the id: it depends
/// on the tokenizer's vocabulary.
#[verifier::external_body]
fn token_to_id(tokenizer: &Tokenizer, token: &str) -> Option<u32> {
    tokenizer.token_to_id(token)
}

/// Looking up the token text `token` in `tokenizer`'s vocabulary can give
/// `id`; `None` stands for a token the vocabulary lacks.
pub closed spec fn token_looks_up_to(tokenizer: &Tokenizer, token: &str, id: Option<u32>) -> bool {
    call_ensures(token_to_id, (tokenizer, token), id)
}

/// The part of the token stream to feed the model at one step:
/// `tokens[start..]`, placed at `position` in the model's sequence.
#[derive(Clone, Copy, Debug, PartialEq, Eq, Structural)]
pub struct ContextWindow {
    pub start: usize,
    pub position: usize,
}

/// What a sampled step means for the caller.
#[derive(Clone, Copy, Debug, PartialEq, Eq, Structural)]
pub enum StepOutcome {
    /// A new token that is not end-of-sequence: decode it and append its text.
    Emit(u32),
    /// The end-of-sequence token was sampled: it is counted, generation ends.
    EndOfSequence,
    /// The sampler failed: nothing is counted, generation ends.
    SamplingFailed,
}

/// Mathematical view of a [`GenerationState`].
pub struct GenerationView {
    /// The prompt followed by every sampled token.
    pub tokens: Seq<u32>,
    pub prompt_len: nat,
    /// How many tokens the model has been fed so far.
    pub position: nat,
    /// Steps begun and completed.
    pub step: int,
    /// The step limit.
    pub budget: int,
    /// Sampled tokens, end-of-sequence included.
    pub generated: int,
    pub eos_token: u32,
    /// End-of-sequence was sampled or the sampler failed.
    pub finished: bool,
    /// A window was handed out and its sample is awaited.
    pub awaiting_sample: bool,
}

impl GenerationView {
    /// No further step will be begun.
    pub open spec fn is_done(self) -> bool {
        self.finished || self.step >= self.budget
    }

    /// What every reachable state satisfies.
    pub open spec fn inv(self) -> bool {
        &&& self.prompt_len <= self.tokens.len()
        &&& self.generated == self.tokens.len() - self.prompt_len
        &&& 0 <= self.generated <= self.step
        &&& self.step == 0 || self.step <= self.budget
        &&& self.position <= self.tokens.len()
        &&& self.awaiting_sample ==> {
            &&& !self.finished
            &&& self.step < self.budget
            &&& self.position == self.tokens.len()
        }
        &&& (!self.awaiting_sample && !self.finished) ==> {
            &&& self.step == 0 ==> self.position == 0
            &&& self.step > 0 ==> self.position + 1 == self.tokens.len()
        }
    }
}

/// Beginning a step: the window (its start and model position) and the next
/// state. A run that is over hands out nothing; otherwise the window starts
/// where the model's position is, the first step at 0 with the whole prompt,
/// later steps at the last sampled token, and the model has then been fed
/// every token.
pub open spec fn spec_begin_step(v: GenerationView) -> (Option<(nat, nat)>, GenerationView) {
    if v.is_done() {
        (None, v)
    } else {
        let start: nat = if v.step > 0 {
            if v.tokens.len() >= 1 { (v.tokens.len() - 1) as nat } else { 0 }
        } else {
            0
        };
        (
            Some((start, v.position)),
            GenerationView { position: v.tokens.len(), awaiting_sample: true, ..v },
        )
    }
}

/// Finishing a step with what the sampler returned (`None`: it failed).
pub open spec fn spec_finish_step(v: GenerationView, sampled: Option<u32>) -> (
    StepOutcome,
    GenerationView,
) {
    let stepped = GenerationView { step: v.step + 1, awaiting_sample: false, ..v };
    match sampled {
        None => (StepOutcome::SamplingFailed, GenerationView { finished: true, ..stepped }),
        Some(t) => {
            let grown = GenerationView {
                tokens: v.tokens.push(t),
                generated: v.generated + 1,
                ..stepped
            };
            if t == v.eos_token {
                (StepOutcome::EndOfSequence, GenerationView { finished: true, ..grown })
            } else {
                (StepOutcome::Emit(t), grown)
            }
        },
    }
}

/// State of one generation run.
pub struct GenerationState {
    tokens: Vec<u32>,
    prompt_len: usize,
    position: usize,
    step: i32,
    budget: i32,
    generated: i32,
    eos_token: u32,
    finished: bool,
    awaiting_sample: bool,
}

impl View for GenerationState {
    type V = GenerationView;

    closed spec fn view(&self) -> GenerationView {
        GenerationView {
            tokens: self.tokens@,
            prompt_len: self.prompt_len as nat,
            position: self.position as nat,
            step: self.step as int,
            budget: self.budget as int,
            generated: self.generated as int,
            eos_token: self.eos_token,
            finished: self.finished,
            awaiting_sample: self.awaiting_sample,
        }
    }
}

impl GenerationState {
    /// Starts a run on the encoded prompt; `max_tokens` limits the number of
    /// steps and defaults to 1024.
    pub fn new(prompt_tokens: Vec<u32>, eos_token: u32, max_tokens: Option<i32>) -> (res: Self)
        ensures
            res@.inv(),
            res@.tokens == prompt_tokens@,
            res@.prompt_len == prompt_tokens@.len(),
            res@.position == 0,
            res@.step == 0,
            res@.budget == match max_tokens {
                Some(m) => m as int,
                None => DEFAULT_MAX_TOKENS as int,
            },
            res@.generated == 0,
            res@.eos_token == eos_token,
            !res@.finished,
            !res@.awaiting_sample,
    {
        let budget: i32 = match max_tokens {
            Some(m) => m,
            None => DEFAULT_MAX_TOKENS,
        };
        let prompt_len: usize = prompt_tokens.len();
        GenerationState {
            tokens: prompt_tokens,
            prompt_len,
            position: 0,
            step: 0,
            budget,
            generated: 0,
            eos_token,
            finished: false,
            awaiting_sample: false,
        }
    }

    /// Starts a run on an encoded prompt: looks up the end-of-sequence token
    /// `eos_text` in the tokenizer's vocabulary. `None` exactly when the
    /// vocabulary lacks it; otherwise a fresh run on `prompt_tokens` with the
    /// looked-up end-of-sequence id, as [`GenerationState::new`] makes it.
    pub fn start(
        tokenizer: &Tokenizer,
        prompt_tokens: Vec<u32>,
        eos_text: &str,
        max_tokens: Option<i32>,
    ) -> (res: Option<Self>)
        ensures
            res matches Some(s) ==> {
                &&& s@.inv()
                &&& s@.tokens == prompt_tokens@
                &&& s@.prompt_len == prompt_tokens@.len()
                &&& s@.position == 0
                &&& s@.step == 0
                &&& s@.budget == match max_tokens {
                    Some(m) => m as int,
                    None => DEFAULT_MAX_TOKENS as int,
                }
                &&& s@.generated == 0
                &&& !s@.finished
                &&& !s@.awaiting_sample
                &&& token_looks_up_to(tokenizer, eos_text, Some(s@.eos_token))
            },
            res is None ==> token_looks_up_to(tokenizer, eos_text, None),
    {
        let looked_up = token_to_id(tokenizer, eos_text);
        assert(token_looks_up_to(tokenizer, eos_text, looked_up));
        match looked_up {
            Some(eos_token) => Some(GenerationState::new(prompt_tokens, eos_token, max_tokens)),
            None => None,
        }
    }

    /// Whether the run is over: end-of-sequence, a sampler failure, or the
    /// step limit.
    pub fn is_done(&self) -> (res: bool)
        ensures
            res == self@.is_done(),
    {
        self.finished || self.step >= self.budget
    }

    /// Whether a window was handed out and its sample is awaited.
    pub fn is_awaiting_sample(&self) -> (res: bool)
        ensures
            res == self@.awaiting_sample,
    {
        self.awaiting_sample
    }

    /// The prompt followed by every sampled token.
    pub fn tokens(&self) -> (res: &[u32])
        ensures
            res@ == self@.tokens,
    {
        self.tokens.as_slice()
    }

    /// The number of sampled tokens, end-of-sequence included.
    pub fn generated(&self) -> (res: i32)
        ensures
            res == self@.generated,
    {
        self.generated
    }

    /// Begins a step: returns the window to feed the model, or `None` when the
    /// run is over. The first step feeds the whole prompt at position 0; every
    /// later step feeds the last sampled token alone, at the position where the
    /// previous window ended.
    pub fn begin_step(&mut self) -> (res: Option<ContextWindow>)
        requires
            old(self)@.inv(),
            !old(self)@.awaiting_sample,
        ensures
            final(self)@.inv(),
            final(self)@ == spec_begin_step(old(self)@).1,
            match res {
                Some(w) => spec_begin_step(old(self)@).0 == Some((w.start as nat, w.position as nat)),
                None => spec_begin_step(old(self)@).0 is None,
            },
    {
        if self.finished || self.step >= self.budget {
            return None;
        }
        let len: usize = self.tokens.len();
        let context_size: usize = if self.step > 0 { 1 } else { len };
        let start: usize = len.saturating_sub(context_size);
        let window = ContextWindow { start, position: self.position };
        self.position = self.position + (len - start);
        self.awaiting_sample = true;
        Some(window)
    }

    /// First index of the tokens the repeat penalty looks at: the last
    /// `repeat_last_n` tokens, or all of them when there are fewer.
    pub fn penalty_window_start(&self, repeat_last_n: usize) -> (res: usize)
        ensures
            res == if self@.tokens.len() >= repeat_last_n {
                self@.tokens.len() - repeat_last_n
            } else {
                0
            },
    {
        self.tokens.len().saturating_sub(repeat_last_n)
    }

    /// Ends a step with what the sampler returned (`None` when it failed).
    pub fn finish_step(&mut self, sampled: Option<u32>) -> (res: StepOutcome)
        requires
            old(self)@.inv(),
            old(self)@.awaiting_sample,
        ensures
            final(self)@.inv(),
            (res, final(self)@) == spec_finish_step(old(self)@, sampled),
    {
        self.awaiting_sample = false;
        self.step = self.step + 1;
        match sampled {
            None => {
                self.finished = true;
                StepOutcome::SamplingFailed
            },
            Some(t) => {
                self.generated = self.generated + 1;
                self.tokens.push(t);
                if t == self.eos_token {
                    self.finished = true;
                    StepOutcome::EndOfSequence
                } else {
                    StepOutcome::Emit(t)
                }
            },
        }
    }
}

/// Each step keeps the invariant.
pub proof fn lemma_steps_keep_invariant(v: GenerationView, sampled: Option<u32>)
    requires
        v.inv(),
    ensures
        !v.awaiting_sample ==> spec_begin_step(v).1.inv(),
        v.awaiting_sample ==> spec_finish_step(v, sampled).1.inv(),
{
}

/// In every reachable state the sampled tokens are exactly the tokens after
/// the prompt, their count never exceeds the number of steps, and the number
/// of steps never exceeds the limit (when any step was taken).
pub proof fn lemma_generation_counts(v: GenerationView)
    requires
        v.inv(),
    ensures
        v.prompt_len <= v.tokens.len(),
        v.generated == v.tokens.len() - v.prompt_len,
        0 <= v.generated <= v.step,
        v.step == 0 || v.step <= v.budget,
{
}

/// The windows tile the token stream: after a step that emits a token, the
/// next window (if the run goes on) is that token alone, at the position
/// where the previous window ended, which is the token's own index.
pub proof fn lemma_windows_tile(v: GenerationView, t: u32)
    requires
        v.inv(),
        !v.awaiting_sample,
        !v.is_done(),
        t != v.eos_token,
    ensures
        ({
            let (w1, v1) = spec_begin_step(v);
            let (o, v2) = spec_finish_step(v1, Some(t));
            let (w2, v3) = spec_begin_step(v2);
            &&& w1 matches Some((start, pos)) && start == pos && pos == v.position
            &&& o == StepOutcome::Emit(t)
            &&& v2.tokens == v.tokens.push(t)
            &&& !v2.is_done() ==> w2 == Some((v.tokens.len(), v.tokens.len()))
                && v3.position == v2.tokens.len()
        }),
{
}

/// Nothing is generated after end-of-sequence or a sampler failure: every
/// later step hands out no window and changes nothing.
pub proof fn lemma_stop_is_final(v: GenerationView, sampled: Option<u32>)
    requires
        v.inv(),
        v.awaiting_sample,
        sampled is None || sampled == Some(v.eos_token),
    ensures
        spec_finish_step(v, sampled).1.is_done(),
        spec_begin_step(spec_finish_step(v, sampled).1).0 is None,
        spec_begin_step(spec_finish_step(v, sampled).1).1 == spec_finish_step(v, sampled).1,
{
}

/// A window is handed out exactly while the run is neither finished nor at
/// its step limit: the limit is the requested `max_tokens` itself, whatever
/// its size, and a run that is over hands out nothing and stays as it is.
pub proof fn lemma_window_iff_within_limit(v: GenerationView)
    requires
        v.inv(),
        !v.awaiting_sample,
    ensures
        spec_begin_step(v).0 is Some <==> (!v.finished && v.step < v.budget),
        (v.finished || v.step >= v.budget) ==> spec_begin_step(v).1 == v,
        (!v.finished && v.step < v.budget) ==> spec_begin_step(v).1.step == v.step
            && spec_begin_step(v).1.awaiting_sample,
{
}

/// A run that never samples end-of-sequence and never fails makes exactly
/// `max(m, 0)` steps when created with the limit `m`: after `k < m` completed
/// steps a further window is handed out, and after `m` steps none is.
pub proof fn lemma_steps_up_to_limit(v: GenerationView, k: int)
    requires
        v.inv(),
        !v.awaiting_sample,
        !v.finished,
        v.step == k,
        0 <= k,
    ensures
        k < v.budget ==> spec_begin_step(v).0 is Some,
        k >= v.budget ==> spec_begin_step(v).0 is None,
{
}

/// The sampled token decides the outcome at every step: `EndOfSequence`
/// exactly for the end-of-sequence id (which is counted, ends the run, and is
/// never handed out for decoding), `Emit(t)` exactly for every other id, and
/// `SamplingFailed` exactly when the sampler failed.
pub proof fn lemma_outcome_by_token(v: GenerationView, sampled: Option<u32>)
    requires
        v.inv(),
        v.awaiting_sample,
    ensures
        ({
            let (o, w) = spec_finish_step(v, sampled);
            &&& (o == StepOutcome::EndOfSequence) <==> sampled == Some(v.eos_token)
            &&& (o == StepOutcome::SamplingFailed) <==> sampled is None
            &&& forall|t: u32| (o == StepOutcome::Emit(t)) <==> (sampled == Some(t) && t != v.eos_token)
            &&& o != StepOutcome::Emit(v.eos_token)
            &&& w.finished <==> (sampled is None || sampled == Some(v.eos_token))
            &&& sampled matches Some(t) ==> w.tokens == v.tokens.push(t) && w.generated == v.generated + 1
        }),
{
}

} // verus!
