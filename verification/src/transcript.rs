//! The Fiat-Shamir transcript: the ordered record of everything that prover and
//! verifier have absorbed.

use vstd::prelude::*;

verus! {

/// What one message of a transcript carries.
#[derive(Clone, Debug, PartialEq, Eq)]
pub enum TranscriptValue<F> {
    U64(u64),
    Bytes(Vec<u8>),
    Scalar(F),
}

/// One labelled message of a transcript.
#[derive(Clone, Debug, PartialEq, Eq)]
pub struct TranscriptMessage<F> {
    pub label: &'static str,
    pub value: TranscriptValue<F>,
}

/// The messages absorbed so far, under the name of the protocol.
#[derive(Clone, Debug, PartialEq, Eq)]
pub struct ProofTranscript<F> {
    label: &'static str,
    messages: Vec<TranscriptMessage<F>>,
}

/// The mathematical content of a [`TranscriptValue`].
#[verifier::ext_equal]
pub enum ValueView<F> {
    U64(u64),
    Bytes(Seq<u8>),
    Scalar(F),
}

/// The mathematical content of a [`TranscriptMessage`].
#[verifier::ext_equal]
pub struct MessageView<F> {
    pub label: Seq<char>,
    pub value: ValueView<F>,
}

/// The mathematical content of a [`ProofTranscript`].
#[verifier::ext_equal]
pub struct TranscriptView<F> {
    pub label: Seq<char>,
    pub messages: Seq<MessageView<F>>,
}

impl<F> View for TranscriptValue<F> {
    type V = ValueView<F>;

    open spec fn view(&self) -> ValueView<F> {
        match *self {
            TranscriptValue::U64(x) => ValueView::U64(x),
            TranscriptValue::Bytes(bytes) => ValueView::Bytes(bytes@),
            TranscriptValue::Scalar(x) => ValueView::Scalar(x),
        }
    }
}

impl<F> View for TranscriptMessage<F> {
    type V = MessageView<F>;

    open spec fn view(&self) -> MessageView<F> {
        MessageView { label: self.label@, value: self.value@ }
    }
}

impl<F> View for ProofTranscript<F> {
    type V = TranscriptView<F>;

    closed spec fn view(&self) -> TranscriptView<F> {
        TranscriptView {
            label: self.label@,
            messages: Seq::new(self.messages@.len(), |i: int| self.messages@[i]@),
        }
    }
}

impl<F> TranscriptView<F> {
    /// The transcript of protocol `label` before anything is absorbed.
    pub open spec fn initial(label: Seq<char>) -> Self {
        TranscriptView { label, messages: Seq::empty() }
    }

    /// This transcript after `messages` are absorbed, in their order.
    pub open spec fn absorb(self, messages: Seq<MessageView<F>>) -> Self {
        TranscriptView { label: self.label, messages: self.messages + messages }
    }
}

/// The message that carries `value` under `label`.
pub open spec fn message<F>(label: Seq<char>, value: ValueView<F>) -> MessageView<F> {
    MessageView { label, value }
}

impl<F> ProofTranscript<F> {
    /// Starts the transcript of the protocol named `label`.
    pub fn new(label: &'static str) -> (transcript: Self)
        ensures
            transcript@ == TranscriptView::<F>::initial(label@),
    {
        let transcript = ProofTranscript { label, messages: Vec::new() };
        assert(transcript@ =~= TranscriptView::<F>::initial(label@));
        transcript
    }

    /// The name of the protocol.
    pub fn label(&self) -> (label: &'static str)
        ensures
            label@ == self@.label,
    {
        self.label
    }

    /// The messages absorbed so far, oldest first.
    pub fn messages(&self) -> (messages: &Vec<TranscriptMessage<F>>)
        ensures
            messages@.len() == self@.messages.len(),
            forall|i: int|
                0 <= i < messages@.len() ==> (#[trigger] messages@[i])@ == self@.messages[i],
    {
        &self.messages
    }

    fn append(&mut self, label: &'static str, value: TranscriptValue<F>)
        ensures
            final(self)@ == old(self)@.absorb(seq![message(label@, value@)]),
    {
        self.messages.push(TranscriptMessage { label, value });
        assert(self@ =~= old(self)@.absorb(seq![message(label@, value@)]));
    }

    /// Absorbs a 64-bit number.
    pub fn append_u64(&mut self, label: &'static str, x: u64)
        ensures
            final(self)@ == old(self)@.absorb(seq![message(label@, ValueView::U64(x))]),
    {
        self.append(label, TranscriptValue::U64(x));
    }

    /// Absorbs a string of bytes.
    pub fn append_bytes(&mut self, label: &'static str, bytes: &Vec<u8>)
        ensures
            final(self)@ == old(self)@.absorb(seq![message(label@, ValueView::Bytes(bytes@))]),
    {
        self.append(label, TranscriptValue::Bytes(vstd::slice::slice_to_vec(bytes.as_slice())));
    }
}

impl<F: Copy> ProofTranscript<F> {
    /// Absorbs a field element.
    pub fn append_scalar(&mut self, label: &'static str, scalar: &F)
        ensures
            final(self)@ == old(self)@.absorb(seq![message(label@, ValueView::Scalar(*scalar))]),
    {
        self.append(label, TranscriptValue::Scalar(*scalar));
    }
}

} // verus!
