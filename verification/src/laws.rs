//! What holds of every prompt: how rendering, text extraction and measuring
//! behave when prompts are joined and when styles are added.

use vstd::prelude::*;
use crate::builder::{
    bash_rendered, measured, plain_text, rendered, shown, zsh_measured, zsh_plain_text,
    zsh_rendered, zsh_shown,
};
use crate::context::PromptContext;
use crate::sequences::translator::sgr_code;
use crate::sequences::{TermSequence, TermType, ZshSequence};
use crate::text::{flat_map, lemma_flat_map_all_empty, lemma_flat_map_concat, lemma_flat_map_push};
use crate::width::{
    has_escape_introducer, is_escape_introducer, is_printable_ascii,
    lemma_text_width_printable_ascii, text_width, visible_text,
};

verus! {

/// Mapping a single item gives its image.
proof fn lemma_flat_map_single<A>(x: A, f: spec_fn(A) -> Seq<char>)
    ensures
        flat_map(seq![x], f) == f(x),
{
    lemma_flat_map_push(Seq::<A>::empty(), x, f);
    assert(Seq::<A>::empty().push(x) =~= seq![x]);
    assert(Seq::<char>::empty() + f(x) =~= f(x));
}

/// An item whose image is empty can be taken out of the middle.
proof fn lemma_flat_map_skips_empty<A>(a: Seq<A>, x: A, b: Seq<A>, f: spec_fn(A) -> Seq<char>)
    requires
        f(x) =~= Seq::<char>::empty(),
    ensures
        flat_map(a + seq![x] + b, f) == flat_map(a + b, f),
{
    lemma_flat_map_concat(a + seq![x], b, f);
    lemma_flat_map_concat(a, seq![x], f);
    lemma_flat_map_single(x, f);
    lemma_flat_map_concat(a, b, f);
    assert(flat_map(a, f) + Seq::<char>::empty() =~= flat_map(a, f));
}

/// A text of printing ASCII characters holds no escape sequence and is as
/// wide as it is long.
pub proof fn lemma_width_of_printable_ascii(s: Seq<char>)
    requires
        forall|i: int| 0 <= i < s.len() ==> is_printable_ascii(#[trigger] s[i]),
    ensures
        visible_text(s) == s,
        text_width(visible_text(s)) == s.len(),
{
    if has_escape_introducer(s) {
        let i = choose|i: int| 0 <= i < s.len() && is_escape_introducer(#[trigger] s[i]);
        assert(is_printable_ascii(s[i]));
    }
    lemma_text_width_printable_ascii(s);
}

/// The elements that are written as an escape sequence with SGR parameters
/// are exactly those that change style or colour.
pub proof fn lemma_sgr_code_is_styling(element: TermSequence)
    ensures
        sgr_code(element) is Some <==> element.is_styling(),
{
}

/// Joining two prompts and rendering the result for a shell gives the
/// rendering of the first followed by the rendering of the second.
pub proof fn lemma_render_concat(a: Seq<TermSequence>, b: Seq<TermSequence>, target: TermType)
    ensures
        rendered(a + b, target) == rendered(a, target) + rendered(b, target),
{
    lemma_flat_map_concat(a, b, |e: TermSequence| e.shell_text(target));
}

/// The literal text of two joined prompts is the literal text of the first
/// followed by that of the second.
pub proof fn lemma_plain_text_concat(a: Seq<TermSequence>, b: Seq<TermSequence>)
    ensures
        plain_text(a + b) == plain_text(a) + plain_text(b),
{
    lemma_flat_map_concat(a, b, |e: TermSequence| e.literal_text());
}

/// The literal text of a single literal element is its text, unchanged.
pub proof fn lemma_plain_text_of_literal(element: TermSequence)
    requires
        element is Literal,
    ensures
        plain_text(seq![element]) == element.literal_text(),
{
    lemma_flat_map_single(element, |e: TermSequence| e.literal_text());
}

/// A prompt without a literal element has no literal text.
pub proof fn lemma_plain_text_without_literals(items: Seq<TermSequence>)
    requires
        forall|i: int| 0 <= i < items.len() ==> !(#[trigger] items[i] is Literal),
    ensures
        plain_text(items) == Seq::<char>::empty(),
{
    let f = |e: TermSequence| e.literal_text();
    assert forall|i: int| 0 <= i < items.len() implies (#[trigger] f(items[i])).len() == 0 by {
        assert(!(items[i] is Literal));
    }
    lemma_flat_map_all_empty(items, f);
}

/// What two joined prompts put on the screen is what the first puts there
/// followed by what the second does.
pub proof fn lemma_shown_concat(
    a: Seq<TermSequence>,
    b: Seq<TermSequence>,
    target: TermType,
    context: PromptContext,
)
    ensures
        shown(a + b, target, context) == shown(a, target, context) + shown(b, target, context),
{
    lemma_flat_map_concat(a, b, |e: TermSequence| e.shown_text(target, context));
}

/// A prompt that is one literal of printing ASCII characters is as many
/// columns wide as the literal is long.
pub proof fn lemma_measure_ascii_literal(
    element: TermSequence,
    target: TermType,
    context: PromptContext,
)
    requires
        element is Literal,
        forall|i: int|
            0 <= i < element.literal_text().len() ==> is_printable_ascii(
                #[trigger] element.literal_text()[i],
            ),
    ensures
        measured(seq![element], target, context) == element.literal_text().len(),
{
    lemma_flat_map_single(element, |e: TermSequence| e.shown_text(target, context));
    lemma_width_of_printable_ascii(element.literal_text());
}

/// Adding a style or a colour anywhere in a prompt changes neither what it
/// puts on the screen nor its width.
pub proof fn lemma_measure_ignores_styling(
    before: Seq<TermSequence>,
    style: TermSequence,
    after: Seq<TermSequence>,
    target: TermType,
    context: PromptContext,
)
    requires
        style.is_styling(),
    ensures
        shown(before + seq![style] + after, target, context) == shown(
            before + after,
            target,
            context,
        ),
        measured(before + seq![style] + after, target, context) == measured(
            before + after,
            target,
            context,
        ),
{
    lemma_flat_map_skips_empty(
        before,
        style,
        after,
        |e: TermSequence| e.shown_text(target, context),
    );
}

/// An element between a style or colour that opens and one that closes is
/// as wide as the element alone.
pub proof fn lemma_measure_styled(
    opening: TermSequence,
    element: TermSequence,
    closing: TermSequence,
    target: TermType,
    context: PromptContext,
)
    requires
        opening.is_styling(),
        closing.is_styling(),
    ensures
        measured(seq![opening, element, closing], target, context) == measured(
            seq![element],
            target,
            context,
        ),
{
    let none = Seq::<TermSequence>::empty();
    lemma_measure_ignores_styling(none, opening, seq![element, closing], target, context);
    assert(none + seq![opening] + seq![element, closing] =~= seq![opening, element, closing]);
    assert(none + seq![element, closing] =~= seq![element, closing]);
    lemma_measure_ignores_styling(seq![element], closing, none, target, context);
    assert(seq![element] + seq![closing] + none =~= seq![element, closing]);
    assert(seq![element] + none =~= seq![element]);
}

/// Joining two Zsh prompts and building the result gives what the first
/// builds followed by what the second builds, in Zsh's syntax and in Bash's.
pub proof fn lemma_zsh_build_concat(a: Seq<ZshSequence>, b: Seq<ZshSequence>)
    ensures
        zsh_rendered(a + b) == zsh_rendered(a) + zsh_rendered(b),
        bash_rendered(a + b) == bash_rendered(a) + bash_rendered(b),
{
    lemma_flat_map_concat(a, b, |e: ZshSequence| e.zsh_text());
    lemma_flat_map_concat(a, b, |e: ZshSequence| e.bash_text());
}

/// The literal text of two joined Zsh prompts is the literal text of the
/// first followed by that of the second.
pub proof fn lemma_zsh_plain_text_concat(a: Seq<ZshSequence>, b: Seq<ZshSequence>)
    ensures
        zsh_plain_text(a + b) == zsh_plain_text(a) + zsh_plain_text(b),
{
    lemma_flat_map_concat(a, b, |e: ZshSequence| e.literal_text());
}

/// The literal text of a single literal element of a Zsh prompt is its
/// text, unchanged.
pub proof fn lemma_zsh_plain_text_of_literal(element: ZshSequence)
    requires
        element is Literal,
    ensures
        zsh_plain_text(seq![element]) == element.literal_text(),
{
    lemma_flat_map_single(element, |e: ZshSequence| e.literal_text());
}

/// A Zsh prompt without a literal element has no literal text.
pub proof fn lemma_zsh_plain_text_without_literals(items: Seq<ZshSequence>)
    requires
        forall|i: int| 0 <= i < items.len() ==> !(#[trigger] items[i] is Literal),
    ensures
        zsh_plain_text(items) == Seq::<char>::empty(),
{
    let f = |e: ZshSequence| e.literal_text();
    assert forall|i: int| 0 <= i < items.len() implies (#[trigger] f(items[i])).len() == 0 by {
        assert(!(items[i] is Literal));
    }
    lemma_flat_map_all_empty(items, f);
}

/// A Zsh prompt that is one literal of printing ASCII characters is as many
/// columns wide as the literal is long.
pub proof fn lemma_zsh_measure_ascii_literal(element: ZshSequence, context: PromptContext)
    requires
        element is Literal,
        forall|i: int|
            0 <= i < element.literal_text().len() ==> is_printable_ascii(
                #[trigger] element.literal_text()[i],
            ),
    ensures
        zsh_measured(seq![element], context) == element.literal_text().len(),
{
    lemma_flat_map_single(element, |e: ZshSequence| e.shown_text(context));
    lemma_width_of_printable_ascii(element.literal_text());
}

/// Adding a style or a colour anywhere in a Zsh prompt changes neither what
/// it puts on the screen nor its width.
pub proof fn lemma_zsh_measure_ignores_styling(
    before: Seq<ZshSequence>,
    style: ZshSequence,
    after: Seq<ZshSequence>,
    context: PromptContext,
)
    requires
        style.is_styling(),
    ensures
        zsh_shown(before + seq![style] + after, context) == zsh_shown(before + after, context),
        zsh_measured(before + seq![style] + after, context) == zsh_measured(
            before + after,
            context,
        ),
{
    lemma_flat_map_skips_empty(before, style, after, |e: ZshSequence| e.shown_text(context));
}

/// An element of a Zsh prompt between a style or colour that opens and one
/// that closes is as wide as the element alone.
pub proof fn lemma_zsh_measure_styled(
    opening: ZshSequence,
    element: ZshSequence,
    closing: ZshSequence,
    context: PromptContext,
)
    requires
        opening.is_styling(),
        closing.is_styling(),
    ensures
        zsh_measured(seq![opening, element, closing], context) == zsh_measured(
            seq![element],
            context,
        ),
{
    let none = Seq::<ZshSequence>::empty();
    lemma_zsh_measure_ignores_styling(none, opening, seq![element, closing], context);
    assert(none + seq![opening] + seq![element, closing] =~= seq![opening, element, closing]);
    assert(none + seq![element, closing] =~= seq![element, closing]);
    lemma_zsh_measure_ignores_styling(seq![element], closing, none, context);
    assert(seq![element] + seq![closing] + none =~= seq![element, closing]);
    assert(seq![element] + none =~= seq![element]);
}

} // verus!
