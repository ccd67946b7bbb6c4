//! What binding the values of an instance never changes, and what it puts where.

use super::bind::{self, PlaceholderView};
use super::template::{self, TemplatePartView};
use super::RenderErrorView;
use crate::json::JsonView;
use crate::string_map;
use crate::text;
use vstd::prelude::*;

verus! {

/// The values that replace tokens.
pub type Substitutions = Seq<(Seq<char>, Seq<char>)>;

/// A text spells one of the first `count` tokens somewhere.
pub open spec fn spells_token(content: Seq<char>, prefix: Seq<char>, count: nat) -> bool {
    exists|number: nat|
        number < count && #[trigger] text::holds(content, bind::token(prefix, number))
}

/// No stretch of the author's text between two instance values spells a token.
/// `run` is what follows the parts.
pub open spec fn runs_spell_no_token(
    parts: Seq<TemplatePartView>,
    run: Seq<char>,
    prefix: Seq<char>,
    count: nat,
) -> bool
    decreases parts.len(),
{
    if parts.len() == 0 {
        !spells_token(run, prefix, count)
    } else {
        match parts.last() {
            TemplatePartView::Literal(literal) => runs_spell_no_token(
                parts.drop_last(),
                literal + run,
                prefix,
                count,
            ),
            TemplatePartView::InstanceValue(_) => !spells_token(run, prefix, count)
                && runs_spell_no_token(parts.drop_last(), Seq::empty(), prefix, count),
        }
    }
}

/// A substitution for each token from the first on.
spec fn numbered(prefix: Seq<char>, substitutions: Substitutions) -> bool {
    forall|i: int|
        0 <= i < substitutions.len() ==> (#[trigger] substitutions[i]).0 == bind::token(
            prefix,
            i as nat,
        )
}

/// A prefix of some manifest's tokens.
spec fn some_prefix(prefix: Seq<char>) -> bool {
    exists|extra: nat| prefix == #[trigger] bind::prefix_with(extra)
}

proof fn lemma_prefix_letters(prefix: Seq<char>)
    requires
        some_prefix(prefix),
    ensures
        prefix.len() >= 2,
        prefix[0] == 's',
        forall|i: int|
            0 < i < prefix.len() && #[trigger] prefix[i] == 's' ==> i + 1 < prefix.len() && prefix[i
                + 1] != 'l',
        prefix[1] == 'l',
{
    reveal_strlit("sleepypodsInstanceValue");
    let extra = choose|extra: nat| prefix == #[trigger] bind::prefix_with(extra);
    let start = bind::TOKEN_PREFIX@;
    assert(start.len() == 23);
    assert forall|i: int| 0 < i < prefix.len() && #[trigger] prefix[i] == 's' implies i + 1
        < prefix.len() && prefix[i + 1] != 'l' by {
        if i >= 23 {
            assert(prefix[i] == 'x');
        } else {
            assert(prefix[i] == start[i]);
            assert(i == 9 || i == 12);
            assert(prefix[i + 1] == start[i + 1]);
        }
    }
    assert(prefix[0] == start[0]);
    assert(prefix[1] == start[1]);
}

proof fn lemma_token_letters(prefix: Seq<char>, number: nat)
    ensures
        bind::token(prefix, number).len() > prefix.len() + 1,
        bind::token(prefix, number).take(prefix.len() as int) == prefix,
        forall|i: int|
            prefix.len() <= i < bind::token(prefix, number).len() - 1 ==> '0' <= #[trigger] bind::token(
                prefix,
                number,
            )[i] <= '9',
        bind::token(prefix, number).last() == '-',
        text::opens_with(bind::token(prefix, number), prefix),
{
    reveal_strlit("-");
    text::lemma_decimal_digits(number);
    let whole = bind::token(prefix, number);
    let digits = text::decimal(number);
    assert forall|i: int| prefix.len() <= i < whole.len() - 1 implies '0' <= #[trigger] whole[i]
        <= '9' by {
        assert(whole[i] == digits[i - prefix.len()]);
    }
    assert(whole.take(prefix.len() as int) =~= prefix);
}

/// Of two tokens with which one text opens, the numbers agree.
proof fn lemma_token_decides(content: Seq<char>, prefix: Seq<char>, left: nat, right: nat)
    requires
        text::opens_with(content, bind::token(prefix, left)),
        text::opens_with(content, bind::token(prefix, right)),
    ensures
        left == right,
{
    lemma_token_letters(prefix, left);
    lemma_token_letters(prefix, right);
    reveal_strlit("-");
    let one = bind::token(prefix, left);
    let two = bind::token(prefix, right);
    assert forall|i: int| 0 <= i < one.len() implies content[i] == #[trigger] one[i] by {
        assert(content.take(one.len() as int)[i] == one[i]);
    }
    assert forall|i: int| 0 <= i < two.len() implies content[i] == #[trigger] two[i] by {
        assert(content.take(two.len() as int)[i] == two[i]);
    }
    if one.len() < two.len() {
        assert(one[one.len() - 1] == '-');
        assert('0' <= two[one.len() - 1] <= '9');
        assert(false);
    }
    if two.len() < one.len() {
        assert(two[two.len() - 1] == '-');
        assert('0' <= one[two.len() - 1] <= '9');
        assert(false);
    }
    assert(one =~= two);
    let digits = text::decimal(left);
    let others = text::decimal(right);
    assert(digits =~= one.subrange(prefix.len() as int, one.len() - 1));
    assert(others =~= two.subrange(prefix.len() as int, two.len() - 1));
    text::lemma_decimal_injective(left, right);
}

proof fn lemma_first_token_found(
    content: Seq<char>,
    prefix: Seq<char>,
    substitutions: Substitutions,
    number: nat,
    from: int,
)
    requires
        numbered(prefix, substitutions),
        0 <= from <= number < substitutions.len(),
        text::opens_with(content, bind::token(prefix, number)),
    ensures
        bind::first_token(content, substitutions, from) == Some(number as int),
    decreases number - from,
{
    assert(substitutions[from].0 == bind::token(prefix, from as nat));
    if from < number {
        if text::opens_with(content, substitutions[from].0) {
            lemma_token_decides(content, prefix, from as nat, number);
        }
        lemma_first_token_found(content, prefix, substitutions, number, from + 1);
    } else {
        assert(substitutions[number as int].0 == bind::token(prefix, number));
    }
}

proof fn lemma_first_token_missing(
    content: Seq<char>,
    prefix: Seq<char>,
    substitutions: Substitutions,
    from: int,
)
    requires
        numbered(prefix, substitutions),
        0 <= from <= substitutions.len(),
        forall|number: nat|
            number < substitutions.len() ==> !#[trigger] text::opens_with(
                content,
                bind::token(prefix, number),
            ),
    ensures
        bind::first_token(content, substitutions, from) is None,
    decreases substitutions.len() - from,
{
    if from < substitutions.len() {
        assert(substitutions[from].0 == bind::token(prefix, from as nat));
        assert(!text::opens_with(content, bind::token(prefix, from as nat)));
        lemma_first_token_missing(content, prefix, substitutions, from + 1);
    }
}

/// A token at the front is replaced by its value, and the scan goes on behind it.
proof fn lemma_token_replaced(
    number: nat,
    rest: Seq<char>,
    prefix: Seq<char>,
    substitutions: Substitutions,
)
    requires
        some_prefix(prefix),
        numbered(prefix, substitutions),
        number < substitutions.len(),
    ensures
        bind::substituted(bind::token(prefix, number) + rest, prefix, substitutions)
            == substitutions[number as int].1 + bind::substituted(rest, prefix, substitutions),
{
    let front = bind::token(prefix, number);
    let content = front + rest;
    lemma_token_letters(prefix, number);
    lemma_prefix_letters(prefix);
    assert(content.take(front.len() as int) =~= front);
    assert(content.take(prefix.len() as int) =~= front.take(prefix.len() as int));
    lemma_first_token_found(content, prefix, substitutions, number, 0);
    assert(substitutions[number as int].0 == front);
    assert(content.skip(front.len() as int) =~= rest);
}

/// A text is empty or opens with a token that is replaced.
spec fn at_token(content: Seq<char>, prefix: Seq<char>, count: nat) -> bool {
    content.len() == 0 || exists|number: nat|
        number < count && #[trigger] text::opens_with(content, bind::token(prefix, number))
}

proof fn lemma_spells_less(content: Seq<char>, from: int, prefix: Seq<char>, count: nat)
    requires
        0 <= from <= content.len(),
        !spells_token(content, prefix, count),
    ensures
        !spells_token(content.skip(from), prefix, count),
{
    if spells_token(content.skip(from), prefix, count) {
        let number = choose|number: nat|
            number < count && #[trigger] text::holds(
                content.skip(from),
                bind::token(prefix, number),
            );
        let token = bind::token(prefix, number);
        let at = choose|at: int|
            0 <= at <= content.skip(from).len() && #[trigger] text::opens_with(
                content.skip(from).skip(at),
                token,
            );
        assert(content.skip(from).skip(at) =~= content.skip(from + at));
        assert(text::opens_with(content.skip(from + at), token));
        assert(text::holds(content, token));
    }
}

/// The author's text in front of a token, or of the end, stays as it is.
proof fn lemma_run_stays(
    run: Seq<char>,
    tail: Seq<char>,
    prefix: Seq<char>,
    substitutions: Substitutions,
)
    requires
        some_prefix(prefix),
        numbered(prefix, substitutions),
        !spells_token(run, prefix, substitutions.len()),
        at_token(tail, prefix, substitutions.len()),
    ensures
        bind::substituted(run + tail, prefix, substitutions) == run + bind::substituted(
            tail,
            prefix,
            substitutions,
        ),
    decreases run.len(),
{
    let content = run + tail;
    lemma_prefix_letters(prefix);
    if tail.len() > 0 {
        let number = choose|number: nat|
            number < substitutions.len() && #[trigger] text::opens_with(
                tail,
                bind::token(prefix, number),
            );
        lemma_token_letters(prefix, number);
        let token = bind::token(prefix, number);
        assert(tail.take(token.len() as int)[0] == token[0]);
        assert(tail.take(token.len() as int)[1] == token[1]);
        assert(token.take(prefix.len() as int)[0] == prefix[0]);
        assert(token.take(prefix.len() as int)[1] == prefix[1]);
        assert(tail[0] == 's' && tail[1] == 'l' && tail.len() > prefix.len());
    }
    if run.len() == 0 {
        assert(content =~= tail);
        assert(run + bind::substituted(tail, prefix, substitutions) =~= bind::substituted(
            tail,
            prefix,
            substitutions,
        ));
    } else if text::opens_with(content, prefix) {
        assert forall|i: int| 0 <= i < prefix.len() implies content[i] == #[trigger] prefix[i] by {
            assert(content.take(prefix.len() as int)[i] == prefix[i]);
        }
        if prefix.len() > run.len() {
            assert(prefix[run.len() as int] == content[run.len() as int]);
            assert(content[run.len() as int] == tail[0]);
            assert(prefix[run.len() as int + 1] == content[run.len() as int + 1]);
            assert(content[run.len() as int + 1] == tail[1]);
            assert(false);
        }
        assert forall|number: nat| number < substitutions.len() implies !#[trigger] text::opens_with(
            content,
            bind::token(prefix, number),
        ) by {
            let token = bind::token(prefix, number);
            lemma_token_letters(prefix, number);
            if text::opens_with(content, token) {
                if token.len() <= run.len() {
                    assert(run.skip(0) =~= run);
                    assert(run.take(token.len() as int) =~= content.take(token.len() as int));
                    assert(text::opens_with(run.skip(0), token));
                    assert(text::holds(run, token));
                } else {
                    assert(content.take(token.len() as int)[run.len() as int] == tail[0]);
                    assert(token[run.len() as int] == 's');
                }
            }
        }
        lemma_first_token_missing(content, prefix, substitutions, 0);
        let rest = run.skip(prefix.len() as int);
        lemma_spells_less(run, prefix.len() as int, prefix, substitutions.len());
        assert(content.skip(prefix.len() as int) =~= rest + tail);
        lemma_run_stays(rest, tail, prefix, substitutions);
        assert(prefix + (rest + bind::substituted(tail, prefix, substitutions)) =~= run
            + bind::substituted(tail, prefix, substitutions)) by {
            assert(run.take(prefix.len() as int) =~= prefix);
            assert(prefix + rest =~= run);
        }
    } else {
        let rest = run.drop_first();
        assert(rest =~= run.skip(1));
        lemma_spells_less(run, 1, prefix, substitutions.len());
        assert(content.drop_first() =~= rest + tail);
        lemma_run_stays(rest, tail, prefix, substitutions);
        assert(seq![run[0]] + (rest + bind::substituted(tail, prefix, substitutions)) =~= run
            + bind::substituted(tail, prefix, substitutions));
    }
}

/// Each field of the parts has the value that replaces its token.
spec fn supplied(
    parts: Seq<TemplatePartView>,
    values: Seq<(Seq<char>, Seq<char>)>,
    substitutions: Substitutions,
) -> bool {
    let fields = bind::fields_of(parts);
    &&& fields.len() <= substitutions.len()
    &&& forall|i: int|
        0 <= i < fields.len() ==> string_map::entry_of(values, #[trigger] fields[i]) == Some(
            substitutions[i].1,
        )
}

proof fn lemma_parts_rendered(
    parts: Seq<TemplatePartView>,
    run: Seq<char>,
    tail: Seq<char>,
    prefix: Seq<char>,
    values: Seq<(Seq<char>, Seq<char>)>,
    substitutions: Substitutions,
)
    requires
        some_prefix(prefix),
        numbered(prefix, substitutions),
        supplied(parts, values, substitutions),
        runs_spell_no_token(parts, run, prefix, substitutions.len()),
        at_token(tail, prefix, substitutions.len()),
    ensures
        template::rendered_text(parts, values) is Ok,
        bind::substituted(
            bind::placeholder_text(parts, prefix) + (run + tail),
            prefix,
            substitutions,
        ) == template::rendered_text(parts, values)->Ok_0 + (run + bind::substituted(
            tail,
            prefix,
            substitutions,
        )),
    decreases parts.len(),
{
    let end = bind::substituted(tail, prefix, substitutions);
    if parts.len() == 0 {
        lemma_run_stays(run, tail, prefix, substitutions);
        assert(bind::placeholder_text(parts, prefix) + (run + tail) =~= run + tail);
        assert(Seq::<char>::empty() + (run + end) =~= run + end);
    } else {
        let front = parts.drop_last();
        let before = bind::placeholder_text(front, prefix);
        match parts.last() {
            TemplatePartView::Literal(literal) => {
                lemma_parts_rendered(
                    front,
                    literal + run,
                    tail,
                    prefix,
                    values,
                    substitutions,
                );
                assert(before + ((literal + run) + tail) =~= (before + literal) + (run + tail));
                let shown = template::rendered_text(front, values)->Ok_0;
                assert(shown + ((literal + run) + end) =~= (shown + literal) + (run + end));
            },
            TemplatePartView::InstanceValue(field) => {
                let number = bind::fields_of(front).len();
                let fields = bind::fields_of(parts);
                assert(fields == bind::fields_of(front).push(field));
                assert(string_map::entry_of(values, fields[number as int]) == Some(
                    substitutions[number as int].1,
                ));
                assert forall|i: int| 0 <= i < number implies string_map::entry_of(
                    values,
                    #[trigger] bind::fields_of(front)[i],
                ) == Some(substitutions[i].1) by {
                    assert(fields[i] == bind::fields_of(front)[i]);
                }
                let token = bind::token(prefix, number);
                let behind = token + (run + tail);
                lemma_token_letters(prefix, number);
                assert(behind.take(token.len() as int) =~= token);
                assert(text::opens_with(behind, token));
                lemma_parts_rendered(
                    front,
                    Seq::empty(),
                    behind,
                    prefix,
                    values,
                    substitutions,
                );
                lemma_token_replaced(number, run + tail, prefix, substitutions);
                lemma_run_stays(run, tail, prefix, substitutions);
                let shown = template::rendered_text(front, values)->Ok_0;
                let value = substitutions[number as int].1;
                assert((before + token) + (run + tail) =~= before + (Seq::<char>::empty()
                    + behind));
                assert(shown + (Seq::<char>::empty() + (value + (run + end))) =~= (shown + value)
                    + (run + end));
            },
        }
    }
}

proof fn lemma_substitutions(
    parts: Seq<TemplatePartView>,
    prefix: Seq<char>,
    values: Seq<(Seq<char>, Seq<char>)>,
)
    ensures
        match bind::substitutions_of(bind::fields_of(parts), prefix, values) {
            Ok(substitutions) => {
                &&& template::rendered_text(parts, values) is Ok
                &&& numbered(prefix, substitutions)
                &&& substitutions.len() == bind::fields_of(parts).len()
                &&& supplied(parts, values, substitutions)
            },
            Err(error) => template::rendered_text(parts, values) == Err::<Seq<char>, RenderErrorView>(error),
        },
    decreases parts.len(),
{
    if parts.len() > 0 {
        let front = parts.drop_last();
        lemma_substitutions(front, prefix, values);
        if let TemplatePartView::InstanceValue(field) = parts.last() {
            let fields = bind::fields_of(parts);
            assert(fields.drop_last() =~= bind::fields_of(front));
            if let Ok(before) = bind::substitutions_of(bind::fields_of(front), prefix, values) {
                if let Some(value) = string_map::entry_of(values, field) {
                    let all = bind::substitutions_of(fields, prefix, values)->Ok_0;
                    assert forall|i: int| 0 <= i < fields.len() implies string_map::entry_of(
                        values,
                        #[trigger] fields[i],
                    ) == Some(all[i].1) by {
                        if i < before.len() {
                            assert(fields[i] == bind::fields_of(front)[i]);
                        }
                    }
                }
            }
        }
    }
}

/// Parsing a manifest with tokens and binding the values afterwards gives each
/// text what pasting the values in would give it, and reports the same missing
/// value, however the author's text is cut into pieces.
pub proof fn law_binding_renders_text(
    parts: Seq<TemplatePartView>,
    values: Seq<(Seq<char>, Seq<char>)>,
)
    ensures
        match bind::with_values_of(bind::unbound(parts), values) {
            Ok(placeholder) => template::rendered_text(parts, values) == Ok::<Seq<char>, RenderErrorView>(
                bind::substituted(
                    placeholder.text,
                    placeholder.prefix,
                    placeholder.substitutions,
                ),
            ),
            Err(error) => template::rendered_text(parts, values) == Err::<Seq<char>, RenderErrorView>(error),
        },
{
    let prefix = bind::token_prefix(parts);
    assert(some_prefix(prefix));
    law_stretches_spell_no_token(parts);
    lemma_substitutions(parts, prefix, values);
    if let Ok(substitutions) = bind::substitutions_of(bind::fields_of(parts), prefix, values) {
        let nothing = Seq::<char>::empty();
        lemma_parts_rendered(parts, nothing, nothing, prefix, values, substitutions);
        assert(bind::placeholder_text(parts, prefix) + (nothing + nothing)
            =~= bind::placeholder_text(parts, prefix));
        let shown = template::rendered_text(parts, values)->Ok_0;
        assert(shown + (nothing + nothing) =~= shown);
    }
}

/// No stretch of the author's text between two instance values spells a token, so
/// nothing that the author wrote is ever taken for a value.
pub proof fn law_stretches_spell_no_token(parts: Seq<TemplatePartView>)
    ensures
        runs_spell_no_token(
            parts,
            Seq::empty(),
            bind::token_prefix(parts),
            bind::fields_of(parts).len(),
        ),
{
    bind::law_author_never_spells_prefix(parts);
    assert(parts.take(parts.len() as int) =~= parts);
    let nothing = Seq::<char>::empty();
    assert(bind::last_run(parts) =~= bind::last_run(parts) + nothing);
    lemma_runs_free(
        parts,
        parts.len(),
        parts.len(),
        nothing,
        bind::token_prefix(parts),
        bind::fields_of(parts).len(),
    );
}

proof fn lemma_no_prefix_no_token(content: Seq<char>, prefix: Seq<char>, count: nat)
    requires
        !text::holds(content, prefix),
    ensures
        !spells_token(content, prefix, count),
{
    if spells_token(content, prefix, count) {
        let number = choose|number: nat|
            number < count && #[trigger] text::holds(content, bind::token(prefix, number));
        let token = bind::token(prefix, number);
        lemma_token_letters(prefix, number);
        let at = choose|at: int|
            0 <= at <= content.len() && #[trigger] text::opens_with(content.skip(at), token);
        assert(content.skip(at).take(prefix.len() as int) =~= content.skip(at).take(
            token.len() as int,
        ).take(prefix.len() as int));
        assert(text::opens_with(content.skip(at), prefix));
    }
}

/// `run` is what the author wrote between the first `length` parts and the end of
/// the first `end`.
proof fn lemma_runs_free(
    parts: Seq<TemplatePartView>,
    length: nat,
    end: nat,
    run: Seq<char>,
    prefix: Seq<char>,
    count: nat,
)
    requires
        length <= end <= parts.len(),
        !bind::author_spells(parts, prefix),
        bind::last_run(parts.take(end as int)) == bind::last_run(parts.take(length as int)) + run,
    ensures
        runs_spell_no_token(parts.take(length as int), run, prefix, count),
    decreases length,
{
    let front = parts.take(length as int);
    let whole = bind::last_run(parts.take(end as int));
    assert(!text::holds(whole, prefix));
    if bind::last_run(front).len() == 0 {
        assert(whole =~= run);
        lemma_no_prefix_no_token(run, prefix, count);
    }
    if length > 0 {
        let shorter = parts.take(length - 1);
        assert(front.drop_last() =~= shorter);
        match front.last() {
            TemplatePartView::Literal(literal) => {
                assert((bind::last_run(shorter) + literal) + run =~= bind::last_run(shorter) + (
                literal + run));
                lemma_runs_free(parts, (length - 1) as nat, end, literal + run, prefix, count);
            },
            TemplatePartView::InstanceValue(_) => {
                let nothing = Seq::<char>::empty();
                assert(bind::last_run(shorter) =~= bind::last_run(shorter) + nothing);
                lemma_runs_free(
                    parts,
                    (length - 1) as nat,
                    (length - 1) as nat,
                    nothing,
                    prefix,
                    count,
                );
            },
        }
    }
}

/// What binding makes of a text.
pub open spec fn bound_text(content: Seq<char>, placeholder: PlaceholderView) -> Seq<char> {
    if placeholder.substitutions.len() == 0 {
        content
    } else {
        bind::substituted(content, placeholder.prefix, placeholder.substitutions)
    }
}

/// No two members of an object come to have one key.
pub open spec fn keys_stay_apart(
    members: Seq<(Seq<char>, JsonView)>,
    placeholder: PlaceholderView,
) -> bool {
    forall|i: int, j: int|
        #![trigger members[i], members[j]]
        0 <= i < j < members.len() ==> bound_text(members[i].0, placeholder) != bound_text(
            members[j].0,
            placeholder,
        )
}

/// No two keys of one map, anywhere in a document, come to be the same.
pub open spec fn all_keys_stay_apart(document: JsonView, placeholder: PlaceholderView) -> bool
    decreases document,
{
    match document {
        JsonView::Array(items) => forall|i: int|
            0 <= i < items.len() ==> all_keys_stay_apart(#[trigger] items[i], placeholder),
        JsonView::Object(members) => {
            &&& keys_stay_apart(members, placeholder)
            &&& forall|i: int|
                0 <= i < members.len() ==> all_keys_stay_apart(
                    (#[trigger] members[i]).1,
                    placeholder,
                )
        },
        _ => true,
    }
}

/// `bound` has the structure of `document`: the same kind at every node, lists of
/// the same length in the same order, maps with as many entries, each under its
/// bound key, and the same scalars but for the texts, which are bound.
pub open spec fn same_structure(
    document: JsonView,
    bound: JsonView,
    placeholder: PlaceholderView,
) -> bool
    decreases document,
{
    match document {
        JsonView::Text(content) => bound == JsonView::Text(bound_text(content, placeholder)),
        JsonView::Array(items) => {
            &&& bound is Array
            &&& bound->Array_0.len() == items.len()
            &&& forall|i: int|
                0 <= i < items.len() ==> same_structure(
                    #[trigger] items[i],
                    bound->Array_0[i],
                    placeholder,
                )
        },
        JsonView::Object(members) => {
            &&& bound is Object
            &&& bound->Object_0.len() == members.len()
            &&& forall|i: int|
                0 <= i < members.len() ==> {
                    let key = bound_text((#[trigger] members[i]).0, placeholder);
                    &&& string_map::entry_of(bound->Object_0, key) is Some
                    &&& same_structure(
                        members[i].1,
                        string_map::entry_of(bound->Object_0, key)->Some_0,
                        placeholder,
                    )
                }
            &&& forall|at: int|
                0 <= at < bound->Object_0.len() ==> exists|i: int|
                    0 <= i < members.len() && (#[trigger] bound->Object_0[at]).0 == bound_text(
                        (#[trigger] members[i]).0,
                        placeholder,
                    )
        },
        _ => bound == document,
    }
}

/// An entry has the key that one of the first `count` members comes to have.
spec fn stems_from(
    entry: (Seq<char>, JsonView),
    members: Seq<(Seq<char>, JsonView)>,
    count: nat,
    placeholder: PlaceholderView,
) -> bool {
    exists|i: int|
        0 <= i < count && entry.0 == bound_text((#[trigger] members[i]).0, placeholder)
}

/// What binding makes of a member stands among the entries of an object.
spec fn kept_in(
    member: (Seq<char>, JsonView),
    entries: Seq<(Seq<char>, JsonView)>,
    placeholder: PlaceholderView,
) -> bool {
    let key = bound_text(member.0, placeholder);
    string_map::entry_of(entries, key) is Some && same_structure(
        member.1,
        string_map::entry_of(entries, key)->Some_0,
        placeholder,
    )
}

/// Two of the first `count` members come to have one key, or two keys of a map
/// inside one of them do.
spec fn collides(
    members: Seq<(Seq<char>, JsonView)>,
    count: nat,
    placeholder: PlaceholderView,
) -> bool {
    ||| exists|i: int, j: int|
        #![trigger members[i], members[j]]
        0 <= i < j < count && bound_text(members[i].0, placeholder) == bound_text(
            members[j].0,
            placeholder,
        )
    ||| exists|i: int|
        0 <= i < count && !all_keys_stay_apart((#[trigger] members[i]).1, placeholder)
}

/// A refusal names the key that two entries would share.
spec fn names_a_key(error: RenderErrorView) -> bool {
    exists|key: Seq<char>| error == #[trigger] bind::shared_key(key)
}

proof fn lemma_bound_items(items: Seq<JsonView>, count: nat, placeholder: PlaceholderView)
    requires
        count <= items.len(),
        placeholder.substitutions.len() > 0,
    ensures
        match bind::bound_items(items, count, placeholder.prefix, placeholder.substitutions) {
            Ok(bound) => bound.len() == count && forall|i: int|
                0 <= i < count ==> all_keys_stay_apart(#[trigger] items[i], placeholder)
                    && same_structure(items[i], bound[i], placeholder),
            Err(error) => names_a_key(error) && exists|i: int|
                0 <= i < count && !all_keys_stay_apart(#[trigger] items[i], placeholder),
        },
    decreases items, count,
{
    if count > 0 {
        lemma_bound_items(items, (count - 1) as nat, placeholder);
        lemma_bound_document(items[count - 1], placeholder);
    }
}

proof fn lemma_bound_members(
    members: Seq<(Seq<char>, JsonView)>,
    count: nat,
    placeholder: PlaceholderView,
)
    requires
        count <= members.len(),
        placeholder.substitutions.len() > 0,
    ensures
        match bind::bound_members(members, count, placeholder.prefix, placeholder.substitutions) {
            Ok(bound) => {
                &&& !collides(members, count, placeholder)
                &&& bound.len() == count
                &&& forall|i: int|
                    0 <= i < count ==> kept_in(#[trigger] members[i], bound, placeholder)
                &&& forall|at: int|
                    0 <= at < bound.len() ==> stems_from(
                        #[trigger] bound[at],
                        members,
                        count,
                        placeholder,
                    )
            },
            Err(error) => names_a_key(error) && collides(members, count, placeholder),
        },
    decreases members, count,
{
    if count > 0 {
        let prefix = placeholder.prefix;
        let substitutions = placeholder.substitutions;
        let fewer = (count - 1) as nat;
        lemma_bound_members(members, fewer, placeholder);
        let last = members[count - 1];
        let key = bound_text(last.0, placeholder);
        lemma_bound_document(last.1, placeholder);
        if let Ok(before) = bind::bound_members(members, fewer, prefix, substitutions) {
            string_map::lemma_entry_of_index(before, key);
            if string_map::entry_of(before, key) is Some {
                let at = choose|at: int|
                    0 <= at < before.len() && #[trigger] before[at].0 == key;
                assert(stems_from(before[at], members, fewer, placeholder));
                let i = choose|i: int|
                    0 <= i < fewer && before[at].0 == bound_text(
                        (#[trigger] members[i]).0,
                        placeholder,
                    );
                assert(bound_text(members[i].0, placeholder) == bound_text(
                    members[count - 1].0,
                    placeholder,
                ));
                assert(collides(members, count, placeholder));
            } else if let Ok(value) = bind::bound_document(last.1, prefix, substitutions) {
                let bound = string_map::with_entry(before, key, value);
                string_map::lemma_with_entry_grows(before, key, value);
                string_map::lemma_with_entry_entries(before, key, value);
                assert forall|i: int| 0 <= i < count implies kept_in(
                    #[trigger] members[i],
                    bound,
                    placeholder,
                ) by {
                    let other = bound_text(members[i].0, placeholder);
                    string_map::lemma_entry_of_with_entry(before, key, value, other);
                    if i < fewer {
                        assert(kept_in(members[i], before, placeholder));
                    }
                }
                assert forall|at: int| 0 <= at < bound.len() implies stems_from(
                    #[trigger] bound[at],
                    members,
                    count,
                    placeholder,
                ) by {
                    if bound[at] == (key, value) {
                        assert(members[count - 1] == last);
                    } else {
                        let place = choose|place: int|
                            0 <= place < before.len() && #[trigger] before[place] == bound[at];
                        assert(stems_from(before[place], members, fewer, placeholder));
                    }
                }
                if collides(members, count, placeholder) {
                    if exists|i: int|
                        0 <= i < count && !all_keys_stay_apart(
                            (#[trigger] members[i]).1,
                            placeholder,
                        ) {
                    } else {
                        let (i, j) = choose|i: int, j: int|
                            #![trigger members[i], members[j]]
                            0 <= i < j < count && bound_text(members[i].0, placeholder)
                                == bound_text(members[j].0, placeholder);
                        assert(j == count - 1);
                        assert(kept_in(members[i], before, placeholder));
                    }
                }
            }
        }
    }
}

proof fn lemma_bound_document(document: JsonView, placeholder: PlaceholderView)
    requires
        placeholder.substitutions.len() > 0,
    ensures
        match bind::bound_document(document, placeholder.prefix, placeholder.substitutions) {
            Ok(bound) => all_keys_stay_apart(document, placeholder) && same_structure(
                document,
                bound,
                placeholder,
            ),
            Err(error) => names_a_key(error) && !all_keys_stay_apart(document, placeholder),
        },
    decreases document, 0nat,
{
    match document {
        JsonView::Array(items) => {
            lemma_bound_items(items, items.len(), placeholder);
        },
        JsonView::Object(members) => {
            lemma_bound_members(members, members.len(), placeholder);
            if let Ok(entries) = bind::bound_members(
                members,
                members.len(),
                placeholder.prefix,
                placeholder.substitutions,
            ) {
                assert forall|i: int| 0 <= i < members.len() implies ({
                    let key = bound_text((#[trigger] members[i]).0, placeholder);
                    &&& string_map::entry_of(entries, key) is Some
                    &&& same_structure(
                        members[i].1,
                        string_map::entry_of(entries, key)->Some_0,
                        placeholder,
                    )
                }) by {
                    assert(kept_in(members[i], entries, placeholder));
                }
                assert forall|at: int| 0 <= at < entries.len() implies exists|i: int|
                    0 <= i < members.len() && (#[trigger] entries[at]).0 == bound_text(
                        (#[trigger] members[i]).0,
                        placeholder,
                    ) by {
                    assert(stems_from(entries[at], members, members.len(), placeholder));
                }
            }
        },
        _ => {},
    }
}

/// Binding keeps the structure that the author wrote, whatever the values of a
/// tenant are: every document that it gives has the same kind at every node, lists
/// of the same length in the same order, and maps with as many entries, each with
/// its bound value under its bound key. Of the scalars only texts change, and
/// without values nothing does.
pub proof fn law_binding_keeps_structure(document: JsonView, placeholder: PlaceholderView)
    ensures
        bind::bound_by(document, placeholder) matches Ok(bound) ==> if placeholder.substitutions.len()
            == 0 {
            bound == document
        } else {
            same_structure(document, bound, placeholder)
        },
{
    if placeholder.substitutions.len() > 0 {
        lemma_bound_document(document, placeholder);
    }
}

/// Binding refuses a document exactly where values would give two entries of one
/// map the same key, and then names such a key. A manifest without values always
/// binds.
pub proof fn law_binding_refuses_only_a_shared_key(
    document: JsonView,
    placeholder: PlaceholderView,
)
    ensures
        bind::bound_by(document, placeholder) is Ok <==> placeholder.substitutions.len() == 0
            || all_keys_stay_apart(document, placeholder),
        bind::bound_by(document, placeholder) matches Err(error) ==> exists|key: Seq<char>|
            error == #[trigger] bind::shared_key(key),
{
    if placeholder.substitutions.len() > 0 {
        lemma_bound_document(document, placeholder);
    }
}

/// A text that spells no token is untouched.
pub proof fn law_text_without_tokens_stays(content: Seq<char>, placeholder: PlaceholderView)
    requires
        forall|i: int|
            0 <= i < placeholder.substitutions.len() ==> !text::holds(
                content,
                (#[trigger] placeholder.substitutions[i]).0,
            ),
    ensures
        bound_text(content, placeholder) == content,
    decreases content.len(),
{
    let prefix = placeholder.prefix;
    let substitutions = placeholder.substitutions;
    if content.len() > 0 && prefix.len() > 0 && substitutions.len() > 0 {
        lemma_no_first_token(content, substitutions, 0);
        let step = if text::opens_with(content, prefix) {
            prefix.len() as int
        } else {
            1
        };
        let rest = content.skip(step);
        assert forall|i: int| 0 <= i < substitutions.len() implies !text::holds(
            rest,
            (#[trigger] substitutions[i]).0,
        ) by {
            if text::holds(rest, substitutions[i].0) {
                let at = choose|at: int|
                    0 <= at <= rest.len() && #[trigger] text::opens_with(
                        rest.skip(at),
                        substitutions[i].0,
                    );
                assert(rest.skip(at) =~= content.skip(step + at));
                assert(text::opens_with(content.skip(step + at), substitutions[i].0));
            }
        }
        law_text_without_tokens_stays(rest, placeholder);
        assert(content.drop_first() =~= content.skip(1));
        assert(content.take(step) + rest =~= content);
        assert(seq![content[0]] =~= content.take(1));
    }
}

proof fn lemma_no_first_token(content: Seq<char>, substitutions: Substitutions, from: int)
    requires
        0 <= from <= substitutions.len(),
        forall|i: int|
            0 <= i < substitutions.len() ==> !text::holds(content, (#[trigger] substitutions[i]).0),
    ensures
        bind::first_token(content, substitutions, from) is None,
    decreases substitutions.len() - from,
{
    if from < substitutions.len() {
        assert(content.skip(0) =~= content);
        assert(!text::holds(content, substitutions[from].0));
        assert(!text::opens_with(content.skip(0), substitutions[from].0));
        lemma_no_first_token(content, substitutions, from + 1);
    }
}

} // verus!
