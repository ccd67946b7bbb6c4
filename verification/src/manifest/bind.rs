//! Instance values in a manifest that is parsed before they are put in.

use super::template::{TemplatePartView, TemplateText, TemplateTextPart};
use super::{field_error, ManifestRenderError, Outcome, RenderErrorView};
use crate::instance::InstanceValues;
use crate::json::{self, Json, JsonView};
use crate::string_map::{self, StringMap};
use crate::text::{self, characters, contains, decimal_text, quoted, stands_at};
use vstd::prelude::*;
use vstd::string::*;

verus! {

/// The starting point for the token that stands in for an instance value.
pub const TOKEN_PREFIX: &'static str = "sleepypodsInstanceValue";

/// The starting point with so many letters more.
pub open spec fn prefix_with(extra: nat) -> Seq<char> {
    TOKEN_PREFIX@ + Seq::new(extra, |i: int| 'x')
}

/// The stretch of the author's text with which the parts end: what was written
/// since the last instance value, however many pieces it comes in.
pub open spec fn last_run(parts: Seq<TemplatePartView>) -> Seq<char>
    decreases parts.len(),
{
    if parts.len() == 0 {
        Seq::empty()
    } else {
        match parts.last() {
            TemplatePartView::Literal(literal) => last_run(parts.drop_last()) + literal,
            TemplatePartView::InstanceValue(_) => Seq::empty(),
        }
    }
}

/// The author's own text spells `pattern` somewhere between two instance values.
pub open spec fn author_spells(parts: Seq<TemplatePartView>, pattern: Seq<char>) -> bool {
    exists|end: int|
        0 <= end <= parts.len() && text::holds(#[trigger] last_run(parts.take(end)), pattern)
}

/// The length of the longest stretch of the author's text.
pub open spec fn longest_run(parts: Seq<TemplatePartView>) -> nat
    decreases parts.len(),
{
    if parts.len() == 0 {
        0
    } else {
        let before = longest_run(parts.drop_last());
        if last_run(parts).len() > before {
            last_run(parts).len()
        } else {
            before
        }
    }
}

/// The least number of letters, from `from` on, with which the author's text does
/// not spell the prefix.
pub open spec fn free_extra(parts: Seq<TemplatePartView>, from: nat) -> nat
    decreases longest_run(parts) + 1 - from,
{
    if from <= longest_run(parts) && author_spells(parts, prefix_with(from)) {
        free_extra(parts, from + 1)
    } else {
        from
    }
}

/// The prefix of the tokens of a manifest: the starting point, grown until the
/// author's text holds no copy of it.
pub open spec fn token_prefix(parts: Seq<TemplatePartView>) -> Seq<char> {
    prefix_with(free_extra(parts, 0))
}

/// The token of the value with a number.
pub open spec fn token(prefix: Seq<char>, number: nat) -> Seq<char> {
    prefix + text::decimal(number) + "-"@
}

/// The fields whose values a manifest names, in order.
pub open spec fn fields_of(parts: Seq<TemplatePartView>) -> Seq<Seq<char>>
    decreases parts.len(),
{
    if parts.len() == 0 {
        Seq::empty()
    } else {
        match parts.last() {
            TemplatePartView::Literal(_) => fields_of(parts.drop_last()),
            TemplatePartView::InstanceValue(field) => fields_of(parts.drop_last()).push(field),
        }
    }
}

/// The manifest with a token wherever an instance value belongs.
pub open spec fn placeholder_text(parts: Seq<TemplatePartView>, prefix: Seq<char>) -> Seq<char>
    decreases parts.len(),
{
    if parts.len() == 0 {
        Seq::empty()
    } else {
        let before = placeholder_text(parts.drop_last(), prefix);
        match parts.last() {
            TemplatePartView::Literal(literal) => before + literal,
            TemplatePartView::InstanceValue(_) => before + token(
                prefix,
                fields_of(parts.drop_last()).len(),
            ),
        }
    }
}

/// The tokens of a manifest, each with the value that replaces it. The first
/// field without a value is reported.
pub open spec fn substitutions_of(
    fields: Seq<Seq<char>>,
    prefix: Seq<char>,
    values: Seq<(Seq<char>, Seq<char>)>,
) -> Outcome<Seq<(Seq<char>, Seq<char>)>>
    decreases fields.len(),
{
    if fields.len() == 0 {
        Ok(Seq::empty())
    } else {
        match substitutions_of(fields.drop_last(), prefix, values) {
            Err(error) => Err(error),
            Ok(before) => match string_map::entry_of(values, fields.last()) {
                Some(value) => Ok(
                    before.push((token(prefix, (fields.len() - 1) as nat), value)),
                ),
                None => Err(RenderErrorView::MissingInstanceValue { field: fields.last() }),
            },
        }
    }
}

/// The first token, from `from` on, with which `content` opens.
pub open spec fn first_token(
    content: Seq<char>,
    substitutions: Seq<(Seq<char>, Seq<char>)>,
    from: int,
) -> Option<int>
    decreases substitutions.len() - from,
{
    if from < 0 || from >= substitutions.len() {
        None
    } else if text::opens_with(content, substitutions[from].0) {
        Some(from)
    } else {
        first_token(content, substitutions, from + 1)
    }
}

/// A text with each token replaced by its value. The scan goes on behind a value,
/// never through it.
pub open spec fn substituted(
    content: Seq<char>,
    prefix: Seq<char>,
    substitutions: Seq<(Seq<char>, Seq<char>)>,
) -> Seq<char>
    decreases content.len(),
{
    if content.len() == 0 || prefix.len() == 0 {
        content
    } else if text::opens_with(content, prefix) {
        match first_token(content, substitutions, 0) {
            Some(at) if 0 < substitutions[at].0.len() <= content.len() => {
                substitutions[at].1 + substituted(
                    content.skip(substitutions[at].0.len() as int),
                    prefix,
                    substitutions,
                )
            },
            _ => prefix + substituted(content.skip(prefix.len() as int), prefix, substitutions),
        }
    } else {
        seq![content[0]] + substituted(content.drop_first(), prefix, substitutions)
    }
}

/// Two keys of one map that the values make the same: an entry that the author
/// wrote would be lost.
pub open spec fn shared_key(key: Seq<char>) -> RenderErrorView {
    RenderErrorView::InvalidField {
        field: "raw_objects.manifest"@,
        message: "instance values must keep the keys of a map apart, but two become "@
            + text::quoted_text(key),
    }
}

/// A document with each token, in its strings and in its keys, replaced by its
/// value. It is refused where two keys of one map become the same.
pub open spec fn bound_document(
    document: JsonView,
    prefix: Seq<char>,
    substitutions: Seq<(Seq<char>, Seq<char>)>,
) -> Outcome<JsonView>
    decreases document, 0nat,
{
    match document {
        JsonView::Text(content) => Ok(JsonView::Text(substituted(content, prefix, substitutions))),
        JsonView::Array(items) => match bound_items(items, items.len(), prefix, substitutions) {
            Ok(bound) => Ok(JsonView::Array(bound)),
            Err(error) => Err(error),
        },
        JsonView::Object(members) => match bound_members(
            members,
            members.len(),
            prefix,
            substitutions,
        ) {
            Ok(bound) => Ok(JsonView::Object(bound)),
            Err(error) => Err(error),
        },
        _ => Ok(document),
    }
}

/// The first `count` items of a list with each token replaced.
pub open spec fn bound_items(
    items: Seq<JsonView>,
    count: nat,
    prefix: Seq<char>,
    substitutions: Seq<(Seq<char>, Seq<char>)>,
) -> Outcome<Seq<JsonView>>
    decreases items, count,
{
    if count == 0 || count > items.len() {
        Ok(Seq::empty())
    } else {
        match bound_items(items, (count - 1) as nat, prefix, substitutions) {
            Err(error) => Err(error),
            Ok(before) => match bound_document(items[count - 1], prefix, substitutions) {
                Err(error) => Err(error),
                Ok(bound) => Ok(before.push(bound)),
            },
        }
    }
}

/// The first `count` members of an object with each token replaced, in the order
/// of the keys they come to have.
pub open spec fn bound_members(
    members: Seq<(Seq<char>, JsonView)>,
    count: nat,
    prefix: Seq<char>,
    substitutions: Seq<(Seq<char>, Seq<char>)>,
) -> Outcome<Seq<(Seq<char>, JsonView)>>
    decreases members, count,
{
    if count == 0 || count > members.len() {
        Ok(Seq::empty())
    } else {
        let key = substituted(members[count - 1].0, prefix, substitutions);
        match bound_members(members, (count - 1) as nat, prefix, substitutions) {
            Err(error) => Err(error),
            Ok(before) => if string_map::entry_of(before, key) is Some {
                Err(shared_key(key))
            } else {
                match bound_document(members[count - 1].1, prefix, substitutions) {
                    Err(error) => Err(error),
                    Ok(bound) => Ok(string_map::with_entry(before, key, bound)),
                }
            },
        }
    }
}

proof fn lemma_items_error_stays(
    items: Seq<JsonView>,
    from: nat,
    to: nat,
    prefix: Seq<char>,
    substitutions: Seq<(Seq<char>, Seq<char>)>,
)
    requires
        from <= to <= items.len(),
        bound_items(items, from, prefix, substitutions) is Err,
    ensures
        bound_items(items, to, prefix, substitutions) == bound_items(
            items,
            from,
            prefix,
            substitutions,
        ),
    decreases to,
{
    if from < to {
        lemma_items_error_stays(items, from, (to - 1) as nat, prefix, substitutions);
    }
}

proof fn lemma_members_error_stays(
    members: Seq<(Seq<char>, JsonView)>,
    from: nat,
    to: nat,
    prefix: Seq<char>,
    substitutions: Seq<(Seq<char>, Seq<char>)>,
)
    requires
        from <= to <= members.len(),
        bound_members(members, from, prefix, substitutions) is Err,
    ensures
        bound_members(members, to, prefix, substitutions) == bound_members(
            members,
            from,
            prefix,
            substitutions,
        ),
    decreases to,
{
    if from < to {
        lemma_members_error_stays(members, from, (to - 1) as nat, prefix, substitutions);
    }
}

/// A raw manifest whose instance values wait outside the text until it parses.
///
/// The manifest is YAML a class author wrote, and its instance values come from a
/// tenant. Pasting a value into the text before the parse lets a value carrying
/// YAML punctuation close the author's scalar and open keys of its own, so
/// instead the text parses with a token in each value's position and
/// [`PlaceholderDocument::bind`] puts the values into the parsed document. Each
/// value then lands inside one scalar, and the document keeps the structure the
/// author wrote.
pub struct PlaceholderDocument {
    text: String,
    prefix: String,
    fields: Vec<String>,
    /// Each token paired with the value that replaces it, in the order the
    /// template names them.
    substitutions: Vec<(String, String)>,
}

/// The mathematical model of a [`PlaceholderDocument`].
#[verifier::ext_equal]
pub struct PlaceholderView {
    pub text: Seq<char>,
    pub prefix: Seq<char>,
    pub fields: Seq<Seq<char>>,
    pub substitutions: Seq<(Seq<char>, Seq<char>)>,
}

impl View for PlaceholderDocument {
    type V = PlaceholderView;

    closed spec fn view(&self) -> PlaceholderView {
        PlaceholderView {
            text: self.text@,
            prefix: self.prefix@,
            fields: super::views(self.fields@),
            substitutions: pair_views(self.substitutions@),
        }
    }
}

spec fn pair_views(pairs: Seq<(String, String)>) -> Seq<(Seq<char>, Seq<char>)> {
    Seq::new(pairs.len(), |i: int| (pairs[i].0@, pairs[i].1@))
}

/// A manifest before its values are known.
pub open spec fn unbound(parts: Seq<TemplatePartView>) -> PlaceholderView {
    PlaceholderView {
        text: placeholder_text(parts, token_prefix(parts)),
        prefix: token_prefix(parts),
        fields: fields_of(parts),
        substitutions: Seq::empty(),
    }
}

/// A manifest with its values.
pub open spec fn with_values_of(
    document: PlaceholderView,
    values: Seq<(Seq<char>, Seq<char>)>,
) -> Outcome<PlaceholderView> {
    match substitutions_of(document.fields, document.prefix, values) {
        Ok(substitutions) => Ok(PlaceholderView { substitutions, ..document }),
        Err(error) => Err(error),
    }
}

/// What binding a document's values makes of a parsed document.
pub open spec fn bound_by(document: JsonView, placeholder: PlaceholderView) -> Outcome<JsonView> {
    if placeholder.substitutions.len() == 0 {
        Ok(document)
    } else {
        bound_document(document, placeholder.prefix, placeholder.substitutions)
    }
}

proof fn lemma_run_fits(parts: Seq<TemplatePartView>, end: int)
    requires
        0 <= end <= parts.len(),
    ensures
        last_run(parts.take(end)).len() <= longest_run(parts),
    decreases parts.len(),
{
    if end < parts.len() {
        assert(parts.drop_last().take(end) =~= parts.take(end));
        lemma_run_fits(parts.drop_last(), end);
    } else {
        assert(parts.take(end) =~= parts);
    }
}

proof fn lemma_spelled_fits(parts: Seq<TemplatePartView>, pattern: Seq<char>)
    requires
        author_spells(parts, pattern),
    ensures
        pattern.len() <= longest_run(parts),
{
    let end = choose|end: int|
        0 <= end <= parts.len() && text::holds(#[trigger] last_run(parts.take(end)), pattern);
    let run = last_run(parts.take(end));
    let at = choose|at: int|
        0 <= at <= run.len() && #[trigger] text::opens_with(run.skip(at), pattern);
    lemma_run_fits(parts, end);
}

/// The prefix of a manifest's tokens is spelled nowhere in the author's text.
pub proof fn law_author_never_spells_prefix(parts: Seq<TemplatePartView>)
    ensures
        !author_spells(parts, token_prefix(parts)),
{
    lemma_free_extra(parts, 0);
}

proof fn lemma_free_extra(parts: Seq<TemplatePartView>, from: nat)
    ensures
        !author_spells(parts, prefix_with(free_extra(parts, from))),
    decreases longest_run(parts) + 1 - from,
{
    if from <= longest_run(parts) && author_spells(parts, prefix_with(from)) {
        lemma_free_extra(parts, from + 1);
    } else if author_spells(parts, prefix_with(from)) {
        lemma_spelled_fits(parts, prefix_with(from));
    }
}

fn any_run_contains(parts: &[TemplateTextPart], pattern: &str) -> (found: bool)
    ensures
        found == author_spells(super::views(parts@), pattern@),
{
    let ghost all = super::views(parts@);
    let mut run = String::new();
    let mut index: usize = 0;
    assert(run@ =~= last_run(all.take(0)));
    if contains(run.as_str(), pattern) {
        return true;
    }
    while index < parts.len()
        invariant
            index <= parts.len(),
            all == super::views(parts@),
            run@ == last_run(all.take(index as int)),
            forall|end: int|
                0 <= end <= index ==> !text::holds(#[trigger] last_run(all.take(end)), pattern@),
        decreases parts.len() - index,
    {
        proof {
            let next = all.take(index + 1);
            assert(next.drop_last() =~= all.take(index as int));
            assert(next.last() == parts@[index as int]@);
        }
        match &parts[index] {
            TemplateTextPart::Literal(literal) => run.append(literal.as_str()),
            TemplateTextPart::InstanceValue(_) => {
                run = String::new();
            },
        }
        index = index + 1;
        assert(run@ =~= last_run(all.take(index as int)));
        if contains(run.as_str(), pattern) {
            return true;
        }
    }
    false
}

/// A token has to be distinguishable from the manifest around it, so the prefix
/// grows until the author's literal text holds no copy of it.
fn unique_prefix(template: &TemplateText) -> (prefix: String)
    ensures
        prefix@ == token_prefix(template@),
{
    let mut prefix = TOKEN_PREFIX.to_owned();
    let parts = template.parts();
    let ghost mut extra: nat = 0;
    assert(prefix@ =~= prefix_with(0));
    while any_run_contains(parts, prefix.as_str())
        invariant
            super::views(parts@) == template@,
            prefix@ == prefix_with(extra),
            extra <= longest_run(template@) + 1,
            free_extra(template@, 0) == free_extra(template@, extra),
        decreases longest_run(template@) + 1 - extra,
    {
        proof {
            lemma_spelled_fits(template@, prefix@);
        }
        prefix.push('x');
        proof {
            extra = extra + 1;
            assert(prefix@ =~= prefix_with(extra));
        }
    }
    prefix
}

impl PlaceholderDocument {
    #[verifier::type_invariant]
    spec fn advances(self) -> bool {
        &&& self.prefix@.len() > 0
        &&& forall|i: int|
            0 <= i < self.substitutions@.len() ==> (#[trigger] self.substitutions@[i]).0@.len() > 0
    }

    /// The manifest with a token in the place of each value.
    pub fn new(template: &TemplateText) -> (document: PlaceholderDocument)
        ensures
            document@ == unbound(template@),
    {
        let prefix = unique_prefix(template);
        let parts = template.parts();
        let ghost all = template@;
        let mut content = String::new();
        let mut fields: Vec<String> = Vec::new();
        let mut index: usize = 0;
        assert(all.take(0) =~= Seq::<TemplatePartView>::empty());
        assert(super::views(fields@) =~= Seq::<Seq<char>>::empty());
        while index < parts.len()
            invariant
                index <= parts.len(),
                all == super::views(parts@),
                content@ == placeholder_text(all.take(index as int), prefix@),
                super::views(fields@) == fields_of(all.take(index as int)),
                fields@.len() <= index,
            decreases parts.len() - index,
        {
            proof {
                let next = all.take(index + 1);
                assert(next.drop_last() =~= all.take(index as int));
                assert(next.last() == parts@[index as int]@);
            }
            match &parts[index] {
                TemplateTextPart::Literal(literal) => content.append(literal.as_str()),
                TemplateTextPart::InstanceValue(field) => {
                    let number = decimal_text(fields.len() as u64);
                    let written = prefix.clone().concat(number.as_str()).concat("-");
                    content.append(written.as_str());
                    let ghost before = fields@;
                    fields.push(field.clone());
                    assert(super::views(fields@) =~= super::views(before).push(field@));
                },
            }
            index = index + 1;
        }
        assert(all.take(index as int) =~= all);
        proof {
            reveal_strlit("sleepypodsInstanceValue");
        }
        let document = PlaceholderDocument {
            text: content,
            prefix,
            fields,
            substitutions: Vec::new(),
        };
        assert(document@ =~= unbound(template@));
        document
    }

    /// The manifest to parse, with a token wherever an instance value belongs.
    pub fn text(&self) -> (content: &str)
        ensures
            content@ == self@.text,
    {
        self.text.as_str()
    }

    /// The manifest with the values that replace its tokens.
    pub fn with_values(self, values: &InstanceValues) -> (document: Result<
        PlaceholderDocument,
        ManifestRenderError,
    >)
        ensures
            super::outcome(document) == with_values_of(self@, values@),
    {
        proof {
            use_type_invariant(&self);
        }
        let ghost fields = self@.fields;
        let mut substitutions: Vec<(String, String)> = Vec::new();
        let mut index: usize = 0;
        assert(fields.take(0) =~= Seq::<Seq<char>>::empty());
        assert(pair_views(substitutions@) =~= Seq::<(Seq<char>, Seq<char>)>::empty());
        while index < self.fields.len()
            invariant
                index <= self.fields.len(),
                self.prefix@.len() > 0,
                fields == super::views(self.fields@),
                fields == self@.fields,
                self@.prefix == self.prefix@,
                substitutions_of(fields.take(index as int), self.prefix@, values@) == Ok::<
                    Seq<(Seq<char>, Seq<char>)>,
                    RenderErrorView,
                >(pair_views(substitutions@)),
                forall|i: int|
                    0 <= i < substitutions@.len() ==> (#[trigger] substitutions@[i]).0@.len() > 0,
            decreases self.fields.len() - index,
        {
            proof {
                let next = fields.take(index + 1);
                assert(next.drop_last() =~= fields.take(index as int));
                assert(next.last() == self.fields@[index as int]@);
            }
            let field = &self.fields[index];
            match values.get(field.as_str()) {
                Some(value) => {
                    let number = decimal_text(index as u64);
                    let written = self.prefix.clone().concat(number.as_str()).concat("-");
                    let ghost before = substitutions@;
                    substitutions.push((written, value.clone()));
                    assert(pair_views(substitutions@) =~= pair_views(before).push(
                        (token(self.prefix@, index as nat), value@),
                    ));
                },
                None => {
                    proof {
                        lemma_missing_stays(fields, self.prefix@, values@, index + 1);
                    }
                    return Err(ManifestRenderError::MissingInstanceValue { field: field.clone() });
                },
            }
            index = index + 1;
        }
        assert(fields.take(index as int) =~= fields);
        let document = PlaceholderDocument {
            text: self.text,
            prefix: self.prefix,
            fields: self.fields,
            substitutions,
        };
        Ok(document)
    }

    /// The parsed document with every token replaced by the value it stands for,
    /// in map keys as well as scalars. Values that make two keys of one map the same
    /// are refused, since an entry that the author wrote would be lost.
    pub fn bind(&self, value: Json) -> (bound: Result<Json, ManifestRenderError>)
        ensures
            super::outcome(bound) == bound_by(value@, self@),
    {
        if self.substitutions.len() == 0 {
            return Ok(value);
        }
        self.bind_all(&value)
    }

    fn bind_all(&self, value: &Json) -> (bound: Result<Json, ManifestRenderError>)
        ensures
            super::outcome(bound) == bound_document(value@, self@.prefix, self@.substitutions),
        decreases value@,
    {
        proof {
            json::lemma_json_view(*value);
        }
        match value {
            Json::Text(content) => match self.substitute(content.as_str()) {
                Some(replaced) => Ok(Json::text(replaced)),
                None => {
                    proof {
                        lemma_nothing_to_substitute(
                            content@,
                            self@.prefix,
                            self@.substitutions,
                        );
                    }
                    Ok(value.clone())
                },
            },
            Json::Array(items) => {
                let mut replaced: Vec<Json> = Vec::new();
                let mut index: usize = 0;
                assert(json::json_views(replaced@) =~= Seq::<JsonView>::empty());
                while index < items.len()
                    invariant
                        index <= items.len(),
                        value@ == JsonView::Array(json::json_views(items@)),
                        bound_items(
                            json::json_views(items@),
                            index as nat,
                            self@.prefix,
                            self@.substitutions,
                        ) == Ok::<Seq<JsonView>, RenderErrorView>(json::json_views(replaced@)),
                    decreases items.len() - index,
                {
                    let ghost all = json::json_views(items@);
                    assert(decreases_to!(value@ => value@->Array_0[index as int]));
                    match self.bind_all(&items[index]) {
                        Ok(bound) => {
                            let ghost before = replaced@;
                            replaced.push(bound);
                            assert(json::json_views(replaced@) =~= json::json_views(before).push(
                                bound@,
                            ));
                        },
                        Err(error) => {
                            proof {
                                lemma_items_error_stays(
                                    all,
                                    (index + 1) as nat,
                                    all.len(),
                                    self@.prefix,
                                    self@.substitutions,
                                );
                            }
                            return Err(error);
                        },
                    }
                    index = index + 1;
                }
                Ok(Json::array(replaced))
            },
            Json::Object(members) => {
                let length: usize = members.len();
                let mut replaced: StringMap<Json> = StringMap::new();
                let mut index: usize = 0;
                while index < length
                    invariant
                        index <= length == members@.len(),
                        value@ == JsonView::Object(members@),
                        bound_members(
                            members@,
                            index as nat,
                            self@.prefix,
                            self@.substitutions,
                        ) == Ok::<Seq<(Seq<char>, JsonView)>, RenderErrorView>(replaced@),
                    decreases length - index,
                {
                    assert(decreases_to!(value@ => value@->Object_0[index as int].1));
                    let key = self.bind_key(members.key_at(index));
                    if replaced.contains_key(key.as_str()) {
                        proof {
                            lemma_members_error_stays(
                                members@,
                                (index + 1) as nat,
                                members@.len(),
                                self@.prefix,
                                self@.substitutions,
                            );
                        }
                        let shown = "instance values must keep the keys of a map apart, but two become ".to_owned().concat(
                            quoted(key.as_str()).as_str(),
                        );
                        return Err(field_error("raw_objects.manifest", shown.as_str()));
                    }
                    match self.bind_all(members.value_at(index)) {
                        Ok(bound) => replaced.insert(key, bound),
                        Err(error) => {
                            proof {
                                lemma_members_error_stays(
                                    members@,
                                    (index + 1) as nat,
                                    members@.len(),
                                    self@.prefix,
                                    self@.substitutions,
                                );
                            }
                            return Err(error);
                        },
                    }
                    index = index + 1;
                }
                Ok(Json::object(replaced))
            },
            _ => Ok(value.clone()),
        }
    }

    fn bind_key(&self, key: &String) -> (bound: String)
        ensures
            bound@ == substituted(key@, self@.prefix, self@.substitutions),
    {
        match self.substitute(key.as_str()) {
            Some(bound) => bound,
            None => {
                proof {
                    lemma_nothing_to_substitute(key@, self@.prefix, self@.substitutions);
                }
                key.clone()
            },
        }
    }

    /// `None` when the text holds no token and can stay as it is.
    fn substitute(&self, content: &str) -> (replaced: Option<String>)
        ensures
            match replaced {
                Some(bound) => text::holds(content@, self@.prefix) && bound@ == substituted(
                    content@,
                    self@.prefix,
                    self@.substitutions,
                ),
                None => !text::holds(content@, self@.prefix),
            },
    {
        proof {
            use_type_invariant(self);
        }
        if !contains(content, self.prefix.as_str()) {
            return None;
        }
        let list = characters(content);
        let prefix = characters(self.prefix.as_str());
        let ghost whole = substituted(content@, self@.prefix, self@.substitutions);
        let mut bound = String::new();
        let mut at: usize = 0;
        assert(list@.skip(0) =~= content@);
        assert(bound@ + whole =~= whole);
        while at < list.len()
            invariant
                at <= list.len(),
                prefix@ == self@.prefix,
                prefix@.len() > 0,
                self@.prefix == self.prefix@,
                self@.substitutions == pair_views(self.substitutions@),
                forall|i: int|
                    0 <= i < self.substitutions@.len() ==> (
                    #[trigger] self.substitutions@[i]).0@.len() > 0,
                whole == bound@ + substituted(
                    list@.skip(at as int),
                    self@.prefix,
                    self@.substitutions,
                ),
            decreases list.len() - at,
        {
            let ghost rest = list@.skip(at as int);
            let ghost before = bound@;
            if stands_at(&list, at, &prefix) {
                match self.token_at(&list, at) {
                    // Scanning continues past the value rather than through it, so a
                    // value that happens to spell a token stays inert text.
                    Some(index) => {
                        let entry = &self.substitutions[index];
                        let length: usize = characters(entry.0.as_str()).len();
                        bound.append(entry.1.as_str());
                        assert(rest.skip(length as int) =~= list@.skip(at + length));
                        at = at + length;
                        assert(self@.substitutions[index as int] == (entry.0@, entry.1@));
                        assert(whole =~= bound@ + substituted(
                            list@.skip(at as int),
                            self@.prefix,
                            self@.substitutions,
                        ));
                    },
                    None => {
                        bound.append(self.prefix.as_str());
                        assert(rest.skip(prefix.len() as int) =~= list@.skip(at + prefix.len()));
                        at = at + prefix.len();
                        assert(whole =~= bound@ + substituted(
                            list@.skip(at as int),
                            self@.prefix,
                            self@.substitutions,
                        ));
                    },
                }
            } else {
                bound.push(list[at]);
                assert(rest.drop_first() =~= list@.skip(at + 1));
                at = at + 1;
                assert(whole =~= bound@ + substituted(
                    list@.skip(at as int),
                    self@.prefix,
                    self@.substitutions,
                ));
            }
        }
        assert(list@.skip(at as int) =~= Seq::<char>::empty());
        assert(bound@ =~= whole);
        Some(bound)
    }

    /// The number of the token with which the text opens at a place.
    fn token_at(&self, list: &Vec<char>, at: usize) -> (found: Option<usize>)
        requires
            at <= list@.len(),
        ensures
            match found {
                Some(index) => first_token(
                    list@.skip(at as int),
                    self@.substitutions,
                    0,
                ) == Some(index as int) && index < self@.substitutions.len()
                    && self@.substitutions[index as int].0.len() <= list@.len() - at,
                None => first_token(list@.skip(at as int), self@.substitutions, 0) is None,
            },
    {
        let mut index: usize = 0;
        while index < self.substitutions.len()
            invariant
                index <= self.substitutions.len(),
                at <= list@.len(),
                self@.substitutions == pair_views(self.substitutions@),
                first_token(list@.skip(at as int), self@.substitutions, 0) == first_token(
                    list@.skip(at as int),
                    self@.substitutions,
                    index as int,
                ),
            decreases self.substitutions.len() - index,
        {
            assert(self@.substitutions[index as int].0 == self.substitutions@[index as int].0@);
            if stands_at(list, at, &characters(self.substitutions[index].0.as_str())) {
                return Some(index);
            }
            index = index + 1;
        }
        None
    }
}

proof fn lemma_missing_stays(
    fields: Seq<Seq<char>>,
    prefix: Seq<char>,
    values: Seq<(Seq<char>, Seq<char>)>,
    length: int,
)
    requires
        0 <= length <= fields.len(),
        substitutions_of(fields.take(length), prefix, values) is Err,
    ensures
        substitutions_of(fields, prefix, values) == substitutions_of(
            fields.take(length),
            prefix,
            values,
        ),
    decreases fields.len() - length,
{
    if length < fields.len() {
        assert(fields.take(length + 1).drop_last() =~= fields.take(length));
        lemma_missing_stays(fields, prefix, values, length + 1);
    } else {
        assert(fields.take(length) =~= fields);
    }
}

/// A text that does not hold the prefix is left as it is.
pub proof fn lemma_nothing_to_substitute(
    content: Seq<char>,
    prefix: Seq<char>,
    substitutions: Seq<(Seq<char>, Seq<char>)>,
)
    requires
        !text::holds(content, prefix),
    ensures
        substituted(content, prefix, substitutions) == content,
    decreases content.len(),
{
    if content.len() > 0 && prefix.len() > 0 {
        assert(content.skip(0) =~= content);
        assert(!text::opens_with(content.skip(0), prefix));
        let rest = content.drop_first();
        if text::holds(rest, prefix) {
            let at = choose|at: int|
                0 <= at <= rest.len() && #[trigger] text::opens_with(rest.skip(at), prefix);
            assert(rest.skip(at) =~= content.skip(at + 1));
            assert(text::opens_with(content.skip(at + 1), prefix));
        }
        lemma_nothing_to_substitute(rest, prefix, substitutions);
        assert(seq![content[0]] + rest =~= content);
    }
}

} // verus!
