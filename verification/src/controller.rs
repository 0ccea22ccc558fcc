use crate::loop_number::{spec_next, spec_prev, LoopNumber};
use vstd::prelude::*;

verus! {

/// One key event, classified into the categories the form controller acts on.
#[derive(Clone, Copy, Debug, PartialEq, Eq, Structural)]
pub enum FormKey {
    /// A text character.
    Char(char),
    /// Remove the last character of the focused text buffer.
    Erase,
    /// Revalidate the whole form and submit it when every field passes.
    Confirm,
    /// Move focus to the next field.
    FocusNext,
    /// Move focus to the previous field.
    FocusPrev,
    /// Cycle the focused radio field backward.
    SelectPrev,
    /// Cycle the focused radio field forward.
    SelectNext,
    /// Any other key: not consumed, left to the host.
    Other,
}

/// What one key event produced: whether the escape key was consumed by the
/// form, and whether the form is complete and ready for materialisation.
#[derive(Clone, Copy, Debug, PartialEq, Eq, Structural)]
pub struct InnerHandleKeyEventOutput {
    pub esc_handled: bool,
    pub exit: bool,
}

/// The output of a key event that was not specially handled.
pub open spec fn output_default() -> InnerHandleKeyEventOutput {
    InnerHandleKeyEventOutput { esc_handled: false, exit: false }
}

impl Default for InnerHandleKeyEventOutput {
    fn default() -> (r: Self)
        ensures
            r == output_default(),
    {
        InnerHandleKeyEventOutput { esc_handled: false, exit: false }
    }
}

impl InnerHandleKeyEventOutput {
    /// The same output, marked as exiting the form (submit).
    pub fn with_exited(self) -> (r: Self)
        ensures
            r == (InnerHandleKeyEventOutput { exit: true, ..self }),
    {
        let mut s = self;
        s.exit = true;
        s
    }

    /// The same output, marked as having consumed the escape key.
    pub fn with_esc_handled(self) -> (r: Self)
        ensures
            r == (InnerHandleKeyEventOutput { esc_handled: true, ..self }),
    {
        let mut s = self;
        s.esc_handled = true;
        s
    }
}

/// The validation state every form shares: the focused position and one error
/// message per field (empty string: no error).
pub struct InnerCommonState {
    pub focus_index: LoopNumber,
    pub error_messages: Vec<String>,
}

impl InnerCommonState {
    /// Well-formed: the focus wraps over exactly one position per field.
    pub open spec fn wf(self) -> bool {
        &&& self.focus_index.wf()
        &&& self.error_messages@.len() == self.focus_index.length
    }

    /// Fresh state: focus on the first field, no error anywhere.
    pub fn new(field_count: usize) -> (r: Self)
        requires
            field_count > 0,
        ensures
            r.wf(),
            r.focus_index == (LoopNumber { value: 0, length: field_count }),
            r.error_messages@.len() == field_count,
            forall|j: int| 0 <= j < field_count ==> r.error_messages@[j]@ == Seq::<char>::empty(),
    {
        let mut errors: Vec<String> = Vec::new();
        let mut i: usize = 0;
        while i < field_count
            invariant
                i <= field_count,
                errors@.len() == i,
                forall|j: int| 0 <= j < i ==> errors@[j]@ == Seq::<char>::empty(),
            decreases field_count - i,
        {
            errors.push(String::new());
            i += 1;
        }
        InnerCommonState { focus_index: LoopNumber { value: 0, length: field_count }, error_messages: errors }
    }
}

/// The field catalog and field accessors of one form: how many fields there
/// are, which are text buffers and which are radio cycles, how each text
/// buffer reads and mutates, and the per-field validation rule.
pub trait FormFields: Sized {
    /// How many fields the form has.
    spec fn spec_field_count() -> int;

    /// Whether position `i` is an editable text buffer.
    spec fn spec_is_text(i: int) -> bool;

    /// Whether position `i` is a radio cycle.
    spec fn spec_is_radio(i: int) -> bool;

    /// The text of the buffer at position `i`.
    spec fn spec_text(self, i: int) -> Seq<char>;

    /// The cursor of the radio at position `i`.
    spec fn spec_radio_id(self, i: int) -> int;

    /// The cycle length of the radio at position `i`.
    spec fn spec_radio_len(self, i: int) -> int;

    /// The validation message for text at position `i`: empty means valid.
    spec fn spec_validate(i: int, text: Seq<char>) -> Seq<char>;

    /// The form's own invariant over its fields.
    spec fn fields_wf(self) -> bool;

    /// A form has at least one field.
    proof fn lemma_count_positive()
        ensures
            Self::spec_field_count() > 0,
    ;

    /// No position is both a text buffer and a radio cycle.
    proof fn lemma_kind_exclusive(i: int)
        ensures
            !(Self::spec_is_text(i) && Self::spec_is_radio(i)),
    ;

    /// Baseline rule of every catalog: empty text never validates.
    proof fn lemma_validate_empty(i: int)
        requires
            0 <= i < Self::spec_field_count(),
            Self::spec_is_text(i),
        ensures
            Self::spec_validate(i, Seq::<char>::empty()).len() > 0,
    ;

    /// Radios of a well-formed form have a cursor inside a non-empty cycle.
    proof fn lemma_radio_wf(self, i: int)
        requires
            self.fields_wf(),
            0 <= i < Self::spec_field_count(),
            Self::spec_is_radio(i),
        ensures
            0 < self.spec_radio_len(i),
            0 <= self.spec_radio_id(i) < self.spec_radio_len(i),
    ;

    fn field_count() -> (r: usize)
        ensures
            r == Self::spec_field_count(),
    ;

    fn is_text_field(&self, i: usize) -> (r: bool)
        requires
            0 <= i < Self::spec_field_count(),
        ensures
            r == Self::spec_is_text(i as int),
    ;

    fn is_radio_field(&self, i: usize) -> (r: bool)
        requires
            0 <= i < Self::spec_field_count(),
        ensures
            r == Self::spec_is_radio(i as int),
    ;

    /// Append `c` to the text buffer at position `i`.
    fn push_char(&mut self, i: usize, c: char)
        requires
            old(self).fields_wf(),
            0 <= i < Self::spec_field_count(),
            Self::spec_is_text(i as int),
        ensures
            final(self).fields_wf(),
            final(self).spec_text(i as int) == old(self).spec_text(i as int).push(c),
            forall|j: int|
                0 <= j < Self::spec_field_count() && Self::spec_is_text(j) && j != i
                    ==> final(self).spec_text(j) == old(self).spec_text(j),
            forall|j: int|
                0 <= j < Self::spec_field_count() && Self::spec_is_radio(j) ==> final(self).spec_radio_id(j) == old(self).spec_radio_id(j) && final(self).spec_radio_len(j)
                    == old(self).spec_radio_len(j),
    ;

    /// Remove the last character of the text buffer at position `i`; empty
    /// buffers stay empty.
    fn pop_char(&mut self, i: usize)
        requires
            old(self).fields_wf(),
            0 <= i < Self::spec_field_count(),
            Self::spec_is_text(i as int),
        ensures
            final(self).fields_wf(),
            final(self).spec_text(i as int) == erased(old(self).spec_text(i as int)),
            forall|j: int|
                0 <= j < Self::spec_field_count() && Self::spec_is_text(j) && j != i
                    ==> final(self).spec_text(j) == old(self).spec_text(j),
            forall|j: int|
                0 <= j < Self::spec_field_count() && Self::spec_is_radio(j) ==> final(self).spec_radio_id(j) == old(self).spec_radio_id(j) && final(self).spec_radio_len(j)
                    == old(self).spec_radio_len(j),
    ;

    /// The validation message of position `i` as it now stands: the rule
    /// applied to a text buffer, the empty message elsewhere.
    fn validate_field(&self, i: usize) -> (e: String)
        requires
            self.fields_wf(),
            0 <= i < Self::spec_field_count(),
        ensures
            e@ == if Self::spec_is_text(i as int) {
                Self::spec_validate(i as int, self.spec_text(i as int))
            } else {
                Seq::<char>::empty()
            },
    ;

    /// Cycle the radio at position `i` forward, with wraparound.
    fn radio_next(&mut self, i: usize)
        requires
            old(self).fields_wf(),
            0 <= i < Self::spec_field_count(),
            Self::spec_is_radio(i as int),
        ensures
            final(self).fields_wf(),
            final(self).spec_radio_id(i as int) == (old(self).spec_radio_id(i as int) + 1) % old(self).spec_radio_len(i as int),
            final(self).spec_radio_len(i as int) == old(self).spec_radio_len(i as int),
            forall|j: int|
                0 <= j < Self::spec_field_count() && Self::spec_is_text(j) ==> final(self).spec_text(j) == old(self).spec_text(j),
            forall|j: int|
                0 <= j < Self::spec_field_count() && Self::spec_is_radio(j) && j != i ==> final(self).spec_radio_id(j) == old(self).spec_radio_id(j) && final(self).spec_radio_len(j)
                    == old(self).spec_radio_len(j),
    ;

    /// Cycle the radio at position `i` backward, with wraparound.
    fn radio_prev(&mut self, i: usize)
        requires
            old(self).fields_wf(),
            0 <= i < Self::spec_field_count(),
            Self::spec_is_radio(i as int),
        ensures
            final(self).fields_wf(),
            final(self).spec_radio_id(i as int) == (old(self).spec_radio_id(i as int) + old(self).spec_radio_len(i as int) - 1) % old(self).spec_radio_len(i as int),
            final(self).spec_radio_len(i as int) == old(self).spec_radio_len(i as int),
            forall|j: int|
                0 <= j < Self::spec_field_count() && Self::spec_is_text(j) ==> final(self).spec_text(j) == old(self).spec_text(j),
            forall|j: int|
                0 <= j < Self::spec_field_count() && Self::spec_is_radio(j) && j != i ==> final(self).spec_radio_id(j) == old(self).spec_radio_id(j) && final(self).spec_radio_len(j)
                    == old(self).spec_radio_len(j),
    ;
}

/// No text buffer and no radio cycle changed.
pub open spec fn fields_unchanged<I: FormFields>(pre: I, post: I) -> bool {
    texts_frame(pre, post, -1) && radios_frame(pre, post, -1)
}

/// Text buffers other than `except` are unchanged.
pub open spec fn texts_frame<I: FormFields>(pre: I, post: I, except: int) -> bool {
    forall|j: int|
        0 <= j < I::spec_field_count() && I::spec_is_text(j) && j != except
            ==> post.spec_text(j) == pre.spec_text(j)
}

/// Radio cycles other than `except` are unchanged.
pub open spec fn radios_frame<I: FormFields>(pre: I, post: I, except: int) -> bool {
    forall|j: int|
        0 <= j < I::spec_field_count() && I::spec_is_radio(j) && j != except
            ==> post.spec_radio_id(j) == pre.spec_radio_id(j) && post.spec_radio_len(j)
            == pre.spec_radio_len(j)
}

/// One erase keystroke on a buffer: drop the last character, or keep an empty
/// buffer empty.
pub open spec fn erased(t: Seq<char>) -> Seq<char> {
    if t.len() == 0 {
        t
    } else {
        t.drop_last()
    }
}

/// The message that revalidation writes for position `i`: the rule applied to
/// a text buffer, the empty message for every other kind of field.
pub open spec fn spec_check<I: FormFields>(inner: I, i: int) -> Seq<char> {
    if I::spec_is_text(i) {
        I::spec_validate(i, inner.spec_text(i))
    } else {
        Seq::<char>::empty()
    }
}

/// Every field of the form passes validation as it now stands.
pub open spec fn all_fields_pass<I: FormFields>(inner: I) -> bool {
    forall|j: int| 0 <= j < I::spec_field_count() ==> spec_check(inner, j).len() == 0
}

/// The error list `post` equals `pre` with position `f` set to `msg`.
pub open spec fn errors_updated(
    pre: InnerCommonState,
    post: InnerCommonState,
    f: int,
    msg: Seq<char>,
) -> bool {
    &&& post.error_messages@.len() == pre.error_messages@.len()
    &&& post.error_messages@[f]@ == msg
    &&& forall|j: int|
        0 <= j < pre.error_messages@.len() && j != f ==> post.error_messages@[j]
            == pre.error_messages@[j]
}

/// What one key event does to a form and its validation state: the generic
/// keystroke algorithm, written once for every form.
pub open spec fn keyevent_transition<I: FormFields>(
    pre: I,
    pre_state: InnerCommonState,
    post: I,
    post_state: InnerCommonState,
    key: FormKey,
    out: InnerHandleKeyEventOutput,
) -> bool {
    let f = pre_state.focus_index.value as int;
    let n = I::spec_field_count();
    match key {
        FormKey::Char(c) => {
            &&& out == output_default()
            &&& post_state.focus_index == pre_state.focus_index
            &&& if I::spec_is_text(f) {
                &&& post.spec_text(f) == pre.spec_text(f).push(c)
                &&& texts_frame(pre, post, f)
                &&& radios_frame(pre, post, -1)
                &&& errors_updated(
                    pre_state,
                    post_state,
                    f,
                    I::spec_validate(f, pre.spec_text(f).push(c)),
                )
            } else {
                fields_unchanged(pre, post) && post_state == pre_state
            }
        },
        FormKey::Erase => {
            &&& out == output_default()
            &&& post_state.focus_index == pre_state.focus_index
            &&& if I::spec_is_text(f) {
                &&& post.spec_text(f) == erased(pre.spec_text(f))
                &&& texts_frame(pre, post, f)
                &&& radios_frame(pre, post, -1)
                &&& errors_updated(
                    pre_state,
                    post_state,
                    f,
                    I::spec_validate(f, erased(pre.spec_text(f))),
                )
            } else {
                fields_unchanged(pre, post) && post_state == pre_state
            }
        },
        FormKey::Confirm => {
            &&& fields_unchanged(pre, post)
            &&& post_state.focus_index == pre_state.focus_index
            &&& post_state.error_messages@.len() == pre_state.error_messages@.len()
            &&& forall|j: int|
                0 <= j < n ==> post_state.error_messages@[j]@ == spec_check(pre, j)
            &&& out.esc_handled == false
            &&& (out.exit <==> all_fields_pass(pre))
        },
        FormKey::FocusNext => {
            &&& fields_unchanged(pre, post)
            &&& out == output_default()
            &&& post_state.error_messages == pre_state.error_messages
            &&& post_state.focus_index == spec_next(pre_state.focus_index)
        },
        FormKey::FocusPrev => {
            &&& fields_unchanged(pre, post)
            &&& out == output_default()
            &&& post_state.error_messages == pre_state.error_messages
            &&& post_state.focus_index == spec_prev(pre_state.focus_index)
        },
        FormKey::SelectPrev => {
            &&& out == output_default()
            &&& post_state == pre_state
            &&& if I::spec_is_radio(f) {
                &&& post.spec_radio_id(f) == (pre.spec_radio_id(f) + pre.spec_radio_len(f) - 1)
                    % pre.spec_radio_len(f)
                &&& post.spec_radio_len(f) == pre.spec_radio_len(f)
                &&& texts_frame(pre, post, -1)
                &&& radios_frame(pre, post, f)
            } else {
                fields_unchanged(pre, post)
            }
        },
        FormKey::SelectNext => {
            &&& out == output_default()
            &&& post_state == pre_state
            &&& if I::spec_is_radio(f) {
                &&& post.spec_radio_id(f) == (pre.spec_radio_id(f) + 1) % pre.spec_radio_len(f)
                &&& post.spec_radio_len(f) == pre.spec_radio_len(f)
                &&& texts_frame(pre, post, -1)
                &&& radios_frame(pre, post, f)
            } else {
                fields_unchanged(pre, post)
            }
        },
        FormKey::Other => {
            &&& out == output_default()
            &&& fields_unchanged(pre, post)
            &&& post_state == pre_state
        },
    }
}

/// The generic keystroke algorithm of every form: it reads the focused field
/// from the extracted validation-state copy, applies the edit, revalidates,
/// and returns the new state for the caller to commit, together with the
/// output signal for the host.
pub fn handle_inner_keyevent<I: FormFields>(
    inner: &mut I,
    state: InnerCommonState,
    key: FormKey,
) -> (res: (InnerCommonState, InnerHandleKeyEventOutput))
    requires
        old(inner).fields_wf(),
        state.wf(),
        state.focus_index.length == I::spec_field_count(),
    ensures
        final(inner).fields_wf(),
        res.0.wf(),
        res.0.focus_index.length == state.focus_index.length,
        keyevent_transition(*old(inner), state, *final(inner), res.0, key, res.1),
{
    let ghost pre_inner = *inner;
    let ghost pre_state = state;
    let f = state.focus_index.value;
    let mut state = state;
    let mut out = InnerHandleKeyEventOutput::default();
    match key {
        FormKey::Char(c) => {
            if inner.is_text_field(f) {
                inner.push_char(f, c);
                let msg = inner.validate_field(f);
                state.error_messages.set(f, msg);
            }
        },
        FormKey::Erase => {
            if inner.is_text_field(f) {
                inner.pop_char(f);
                let msg = inner.validate_field(f);
                state.error_messages.set(f, msg);
            }
        },
        FormKey::Confirm => {
            let n = I::field_count();
            let mut all_ok = true;
            let mut j: usize = 0;
            while j < n
                invariant
                    *inner == pre_inner,
                    inner.fields_wf(),
                    n == I::spec_field_count(),
                    j <= n,
                    state.error_messages@.len() == n,
                    state.focus_index == pre_state.focus_index,
                    forall|k: int|
                        0 <= k < j ==> state.error_messages@[k]@ == spec_check(pre_inner, k),
                    all_ok == (forall|k: int|
                        0 <= k < j ==> spec_check(pre_inner, k).len() == 0),
                decreases n - j,
            {
                let msg = inner.validate_field(j);
                proof {
                    assert(msg@ == spec_check(pre_inner, j as int));
                }
                if !msg.as_str().is_empty() {
                    all_ok = false;
                }
                state.error_messages.set(j, msg);
                j += 1;
            }
            if all_ok {
                out = out.with_exited();
            }
        },
        FormKey::FocusNext => {
            state.focus_index = state.focus_index.next();
        },
        FormKey::FocusPrev => {
            state.focus_index = state.focus_index.prev();
        },
        FormKey::SelectPrev => {
            if inner.is_radio_field(f) {
                inner.radio_prev(f);
            }
        },
        FormKey::SelectNext => {
            if inner.is_radio_field(f) {
                inner.radio_next(f);
            }
        },
        FormKey::Other => {},
    }
    (state, out)
}

/// Two forms that agree on every text buffer and every radio cycle.
pub open spec fn same_fields<I: FormFields>(a: I, b: I) -> bool {
    &&& forall|j: int|
        0 <= j < I::spec_field_count() && I::spec_is_text(j) ==> a.spec_text(j) == b.spec_text(j)
    &&& forall|j: int|
        0 <= j < I::spec_field_count() && I::spec_is_radio(j) ==> a.spec_radio_id(j)
            == b.spec_radio_id(j) && a.spec_radio_len(j) == b.spec_radio_len(j)
}

/// The transition relation reads a form only through its field views, so it
/// carries over to any pair of forms with the same views.
pub proof fn lemma_transition_congruence<I: FormFields>(
    pre1: I,
    pre2: I,
    post1: I,
    post2: I,
    pre_state: InnerCommonState,
    post_state: InnerCommonState,
    key: FormKey,
    out: InnerHandleKeyEventOutput,
)
    requires
        pre_state.wf(),
        pre_state.focus_index.length == I::spec_field_count(),
        same_fields(pre1, pre2),
        same_fields(post1, post2),
        keyevent_transition(pre1, pre_state, post1, post_state, key, out),
    ensures
        keyevent_transition(pre2, pre_state, post2, post_state, key, out),
{
    let f = pre_state.focus_index.value as int;
    assert(0 <= f < I::spec_field_count());
    match key {
        FormKey::Char(c) => {
            if I::spec_is_text(f) {
                assert(post2.spec_text(f) == pre2.spec_text(f).push(c));
                assert forall|j: int|
                    0 <= j < I::spec_field_count() && I::spec_is_text(j) && j
                        != f implies post2.spec_text(j) == pre2.spec_text(j) by {}
                assert forall|j: int|
                    0 <= j < I::spec_field_count() && I::spec_is_radio(j) implies post2.spec_radio_id(
                    j,
                ) == pre2.spec_radio_id(j) && post2.spec_radio_len(j) == pre2.spec_radio_len(
                    j,
                ) by {}
            } else {
                lemma_unchanged_congruence(pre1, pre2, post1, post2);
            }
        },
        FormKey::Erase => {
            if I::spec_is_text(f) {
                assert(post2.spec_text(f) == erased(pre2.spec_text(f)));
                assert forall|j: int|
                    0 <= j < I::spec_field_count() && I::spec_is_text(j) && j
                        != f implies post2.spec_text(j) == pre2.spec_text(j) by {}
                assert forall|j: int|
                    0 <= j < I::spec_field_count() && I::spec_is_radio(j) implies post2.spec_radio_id(
                    j,
                ) == pre2.spec_radio_id(j) && post2.spec_radio_len(j) == pre2.spec_radio_len(
                    j,
                ) by {}
            } else {
                lemma_unchanged_congruence(pre1, pre2, post1, post2);
            }
        },
        FormKey::Confirm => {
            lemma_unchanged_congruence(pre1, pre2, post1, post2);
            assert forall|j: int| 0 <= j < I::spec_field_count() implies spec_check(pre2, j)
                == spec_check(pre1, j) by {}
            assert forall|j: int|
                0 <= j < I::spec_field_count() implies post_state.error_messages@[j]@ == spec_check(
                pre2,
                j,
            ) by {}
            assert(all_fields_pass(pre1) <==> all_fields_pass(pre2));
        },
        FormKey::FocusNext => {
            lemma_unchanged_congruence(pre1, pre2, post1, post2);
        },
        FormKey::FocusPrev => {
            lemma_unchanged_congruence(pre1, pre2, post1, post2);
        },
        FormKey::SelectPrev => {
            if I::spec_is_radio(f) {
                assert forall|j: int|
                    0 <= j < I::spec_field_count() && I::spec_is_text(j) implies post2.spec_text(j)
                        == pre2.spec_text(j) by {}
                assert forall|j: int|
                    0 <= j < I::spec_field_count() && I::spec_is_radio(j) && j
                        != f implies post2.spec_radio_id(j) == pre2.spec_radio_id(j)
                        && post2.spec_radio_len(j) == pre2.spec_radio_len(j) by {}
            } else {
                lemma_unchanged_congruence(pre1, pre2, post1, post2);
            }
        },
        FormKey::SelectNext => {
            if I::spec_is_radio(f) {
                assert forall|j: int|
                    0 <= j < I::spec_field_count() && I::spec_is_text(j) implies post2.spec_text(j)
                        == pre2.spec_text(j) by {}
                assert forall|j: int|
                    0 <= j < I::spec_field_count() && I::spec_is_radio(j) && j
                        != f implies post2.spec_radio_id(j) == pre2.spec_radio_id(j)
                        && post2.spec_radio_len(j) == pre2.spec_radio_len(j) by {}
            } else {
                lemma_unchanged_congruence(pre1, pre2, post1, post2);
            }
        },
        FormKey::Other => {
            lemma_unchanged_congruence(pre1, pre2, post1, post2);
        },
    }
}

/// `fields_unchanged` carries over to view-equal forms.
proof fn lemma_unchanged_congruence<I: FormFields>(pre1: I, pre2: I, post1: I, post2: I)
    requires
        same_fields(pre1, pre2),
        same_fields(post1, post2),
        fields_unchanged(pre1, post1),
    ensures
        fields_unchanged(pre2, post2),
{
    assert forall|j: int|
        0 <= j < I::spec_field_count() && I::spec_is_text(j) implies post2.spec_text(j)
            == pre2.spec_text(j) by {}
    assert forall|j: int|
        0 <= j < I::spec_field_count() && I::spec_is_radio(j) implies post2.spec_radio_id(j)
            == pre2.spec_radio_id(j) && post2.spec_radio_len(j) == pre2.spec_radio_len(j) by {}
}

/// Law: confirm never signals submit while any text field's buffer is empty,
/// and it signals submit exactly when every field passes its validation rule.
pub proof fn lemma_confirm_submit<I: FormFields>(
    pre: I,
    pre_state: InnerCommonState,
    post: I,
    post_state: InnerCommonState,
    out: InnerHandleKeyEventOutput,
)
    requires
        keyevent_transition(pre, pre_state, post, post_state, FormKey::Confirm, out),
    ensures
        out.exit ==> forall|i: int|
            0 <= i < I::spec_field_count() && I::spec_is_text(i) ==> pre.spec_text(i).len() > 0,
        out.exit <==> all_fields_pass(pre),
{
    if out.exit {
        assert forall|i: int|
            0 <= i < I::spec_field_count() && I::spec_is_text(i) implies pre.spec_text(i).len()
            > 0 by {
            if pre.spec_text(i).len() == 0 {
                I::lemma_validate_empty(i);
                assert(pre.spec_text(i) =~= Seq::<char>::empty());
                assert(spec_check(pre, i).len() > 0);
            }
        }
    }
}

/// A buffer after `k` erase keystrokes.
pub open spec fn erased_times(t: Seq<char>, k: nat) -> Seq<char>
    decreases k,
{
    if k == 0 {
        t
    } else {
        erased(erased_times(t, (k - 1) as nat))
    }
}

/// A buffer after one keystroke per character of `cs`.
pub open spec fn appended(t: Seq<char>, cs: Seq<char>) -> Seq<char> {
    t + cs
}

/// Law: typing the characters of `cs` into a buffer and then erasing the same
/// count returns the buffer to its original content, and therefore returns its
/// validation message to the original one.
pub proof fn lemma_append_erase_round_trip<I: FormFields>(i: int, t: Seq<char>, cs: Seq<char>)
    ensures
        erased_times(appended(t, cs), cs.len()) == t,
        I::spec_validate(i, erased_times(appended(t, cs), cs.len())) == I::spec_validate(i, t),
    decreases cs.len(),
{
    if cs.len() == 0 {
        assert(appended(t, cs) =~= t);
    } else {
        let shorter = cs.drop_last();
        lemma_append_erase_round_trip::<I>(i, t, shorter);
        assert(appended(t, cs).len() > 0);
        assert(erased(appended(t, cs)) =~= appended(t, shorter));
        lemma_erased_times_step(appended(t, cs), shorter.len());
    }
}

/// Erasing `k + 1` times is erasing once and then `k` times.
proof fn lemma_erased_times_step(t: Seq<char>, k: nat)
    ensures
        erased_times(t, k + 1) == erased_times(erased(t), k),
    decreases k,
{
    if k == 0 {
        assert(erased_times(t, 1) == erased(erased_times(t, 0)));
        assert(erased_times(t, 0) == t);
        assert(erased_times(erased(t), 0) == erased(t));
    } else {
        lemma_erased_times_step(t, (k - 1) as nat);
        assert(erased_times(t, k + 1) == erased(erased_times(t, k)));
        assert(erased_times(erased(t), k) == erased(erased_times(erased(t), (k - 1) as nat)));
    }
}

/// Law: one character keystroke followed by one erase keystroke restores both
/// the focused buffer and its validation message, whenever the message was in
/// sync with the buffer beforehand.
pub proof fn lemma_edit_round_trip<I: FormFields>(
    s0: I,
    st0: InnerCommonState,
    s1: I,
    st1: InnerCommonState,
    s2: I,
    st2: InnerCommonState,
    c: char,
    out1: InnerHandleKeyEventOutput,
    out2: InnerHandleKeyEventOutput,
)
    requires
        st0.wf(),
        st0.focus_index.length == I::spec_field_count(),
        I::spec_is_text(st0.focus_index.value as int),
        st0.error_messages@[st0.focus_index.value as int]@ == I::spec_validate(
            st0.focus_index.value as int,
            s0.spec_text(st0.focus_index.value as int),
        ),
        keyevent_transition(s0, st0, s1, st1, FormKey::Char(c), out1),
        keyevent_transition(s1, st1, s2, st2, FormKey::Erase, out2),
    ensures
        s2.spec_text(st0.focus_index.value as int) == s0.spec_text(st0.focus_index.value as int),
        st2.error_messages@[st0.focus_index.value as int]@ == st0.error_messages@[
            st0.focus_index.value as int]@,
        forall|j: int|
            0 <= j < I::spec_field_count() && I::spec_is_text(j) ==> s2.spec_text(j)
                == s0.spec_text(j),
{
    let f = st0.focus_index.value as int;
    assert(s1.spec_text(f) == s0.spec_text(f).push(c));
    assert(s1.spec_text(f).len() > 0);
    assert(erased(s1.spec_text(f)) =~= s0.spec_text(f));
}

} // verus!
