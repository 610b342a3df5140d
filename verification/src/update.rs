//! Changing a stored recipe: what the table is told to set, and under which
//! condition.

use vstd::prelude::*;
use vstd::string::StringExecFns;

use crate::chars::concat;
use crate::lists::{join, join_strings};
use crate::store::{
    alias, alias_of, distinct_names, distinct_words, lemma_extend_record, lemma_extend_words,
    names_among, text, text_attribute, words_among, Alias, AliasView, Attribute, AttributeView,
    Item,
};

verus! {

/// The condition of every change: the recipe has an owner, and the owner is
/// the one who asks.
pub const CONDITION: &'static str = "attribute_exists(#owner) AND #owner = :currentOwner";

/// A request to change a recipe.
#[derive(Clone, Debug, PartialEq, Eq)]
pub struct UpdateRequest {
    /// Who asks.
    pub owner: String,
    pub updated_recipe: Recipe,
}

/// The fields of a recipe that are to change, under the recipe's key.
#[derive(Clone, Debug, PartialEq, Eq)]
pub struct Recipe {
    pub uuid: String,
    pub name: Option<String>,
    pub ingredients: Option<Vec<String>>,
    pub instructions: Option<Vec<String>>,
    pub notes: Option<String>,
    pub summary: Option<String>,
    pub owner: Option<String>,
}

/// What the table is told.
#[derive(Clone, Debug, PartialEq, Eq)]
pub struct Expression {
    /// What is set.
    pub expression: String,
    /// When it is set.
    pub condition: String,
    /// What each `#` word stands for. No word is listed twice: see
    /// [`lemma_expression_distinct`].
    pub names: Vec<Alias>,
    /// What each `:` word stands for. No word is listed twice: see
    /// [`lemma_expression_distinct`].
    pub values: Item,
}

pub struct ChangesView {
    pub uuid: Seq<char>,
    pub name: Option<Seq<char>>,
    pub ingredients: Option<Seq<Seq<char>>>,
    pub instructions: Option<Seq<Seq<char>>>,
    pub notes: Option<Seq<char>>,
    pub summary: Option<Seq<char>>,
    pub owner: Option<Seq<char>>,
}

pub struct UpdateRequestView {
    pub owner: Seq<char>,
    pub updated_recipe: ChangesView,
}

pub struct ExpressionView {
    pub expression: Seq<char>,
    pub condition: Seq<char>,
    pub names: Seq<AliasView>,
    pub values: Seq<AttributeView>,
}

impl View for Recipe {
    type V = ChangesView;

    open spec fn view(&self) -> ChangesView {
        ChangesView {
            uuid: self.uuid@,
            name: self.name.deep_view(),
            ingredients: self.ingredients.deep_view(),
            instructions: self.instructions.deep_view(),
            notes: self.notes.deep_view(),
            summary: self.summary.deep_view(),
            owner: self.owner.deep_view(),
        }
    }
}

impl View for UpdateRequest {
    type V = UpdateRequestView;

    open spec fn view(&self) -> UpdateRequestView {
        UpdateRequestView { owner: self.owner@, updated_recipe: self.updated_recipe@ }
    }
}

impl View for Expression {
    type V = ExpressionView;

    open spec fn view(&self) -> ExpressionView {
        ExpressionView {
            expression: self.expression@,
            condition: self.condition@,
            names: self.names.deep_view(),
            values: self.values@,
        }
    }
}

/// The items with `separator` between neighbours.
pub open spec fn separated(items: Seq<Seq<char>>, separator: Seq<char>) -> Seq<char>
    decreases items.len(),
{
    if items.len() == 0 {
        Seq::empty()
    } else if items.len() == 1 {
        items[0]
    } else {
        separated(items.drop_last(), separator) + separator + items.last()
    }
}

/// `item` alone where `present`, nothing otherwise.
pub open spec fn when<T>(present: bool, item: T) -> Seq<T> {
    if present {
        seq![item]
    } else {
        Seq::empty()
    }
}

/// The assignments of a change, one for each field that is given, in the
/// order name, ingredients, instructions, notes, summary, owner.
pub open spec fn assignments(changes: ChangesView) -> Seq<Seq<char>> {
    when(changes.name is Some, "#name = :nameValue"@) + when(
        changes.ingredients is Some,
        "#ingredients = :ingredientsValue"@,
    ) + when(changes.instructions is Some, "#instructions = :instructionsValue"@) + when(
        changes.notes is Some,
        "#notes = :notesValue"@,
    ) + when(changes.summary is Some, "#summary = :summaryValue"@) + when(
        changes.owner is Some,
        "#owner = :ownerValue"@,
    )
}

/// The words for attribute names that a change uses: the owner's, which the
/// condition uses, and one for each other field that is given.
pub open spec fn names(changes: ChangesView) -> Seq<AliasView> {
    seq![alias("#owner"@, "owner"@)] + when(changes.name is Some, alias("#name"@, "name"@))
        + when(changes.ingredients is Some, alias("#ingredients"@, "ingredients"@)) + when(
        changes.instructions is Some,
        alias("#instructions"@, "instructions"@),
    ) + when(changes.notes is Some, alias("#notes"@, "notes"@)) + when(
        changes.summary is Some,
        alias("#summary"@, "summary"@),
    )
}

/// The text that an optional field holds, if it is given.
pub open spec fn given(field: Option<Seq<char>>) -> Seq<char> {
    match field {
        Some(text) => text,
        None => Seq::empty(),
    }
}

/// The stored form of an optional list, if it is given.
pub open spec fn given_list(field: Option<Seq<Seq<char>>>) -> Seq<char> {
    match field {
        Some(lines) => join(lines),
        None => Seq::empty(),
    }
}

/// The values that a change uses: who asks, and the new value of each field
/// that is given, the lists in their stored form.
pub open spec fn values(request: UpdateRequestView) -> Seq<AttributeView> {
    let changes = request.updated_recipe;
    seq![text(":currentOwner"@, request.owner)] + when(
        changes.name is Some,
        text(":nameValue"@, given(changes.name)),
    ) + when(
        changes.ingredients is Some,
        text(":ingredientsValue"@, given_list(changes.ingredients)),
    ) + when(
        changes.instructions is Some,
        text(":instructionsValue"@, given_list(changes.instructions)),
    ) + when(changes.notes is Some, text(":notesValue"@, given(changes.notes))) + when(
        changes.summary is Some,
        text(":summaryValue"@, given(changes.summary)),
    ) + when(changes.owner is Some, text(":ownerValue"@, given(changes.owner)))
}

/// What the table is told for a request: to set each field that is given,
/// if the recipe's owner is the one who asks.
pub open spec fn expression(request: UpdateRequestView) -> ExpressionView {
    ExpressionView {
        expression: "SET "@ + separated(assignments(request.updated_recipe), ","@),
        condition: CONDITION@,
        names: names(request.updated_recipe),
        values: values(request),
    }
}

/// The words that a change uses differ from one another.
proof fn lemma_words_differ()
    ensures
        "#owner"@ != "#name"@,
        "#owner"@ != "#ingredients"@,
        "#owner"@ != "#instructions"@,
        "#owner"@ != "#notes"@,
        "#owner"@ != "#summary"@,
        "#name"@ != "#ingredients"@,
        "#name"@ != "#instructions"@,
        "#name"@ != "#notes"@,
        "#name"@ != "#summary"@,
        "#ingredients"@ != "#instructions"@,
        "#ingredients"@ != "#notes"@,
        "#ingredients"@ != "#summary"@,
        "#instructions"@ != "#notes"@,
        "#instructions"@ != "#summary"@,
        "#notes"@ != "#summary"@,
        ":currentOwner"@ != ":nameValue"@,
        ":currentOwner"@ != ":ingredientsValue"@,
        ":currentOwner"@ != ":instructionsValue"@,
        ":currentOwner"@ != ":notesValue"@,
        ":currentOwner"@ != ":summaryValue"@,
        ":currentOwner"@ != ":ownerValue"@,
        ":nameValue"@ != ":ingredientsValue"@,
        ":nameValue"@ != ":instructionsValue"@,
        ":nameValue"@ != ":notesValue"@,
        ":nameValue"@ != ":summaryValue"@,
        ":nameValue"@ != ":ownerValue"@,
        ":ingredientsValue"@ != ":instructionsValue"@,
        ":ingredientsValue"@ != ":notesValue"@,
        ":ingredientsValue"@ != ":summaryValue"@,
        ":ingredientsValue"@ != ":ownerValue"@,
        ":instructionsValue"@ != ":notesValue"@,
        ":instructionsValue"@ != ":summaryValue"@,
        ":instructionsValue"@ != ":ownerValue"@,
        ":notesValue"@ != ":summaryValue"@,
        ":notesValue"@ != ":ownerValue"@,
        ":summaryValue"@ != ":ownerValue"@,
{
    reveal_strlit("#owner");
    reveal_strlit("#name");
    reveal_strlit("#ingredients");
    reveal_strlit("#instructions");
    reveal_strlit("#notes");
    reveal_strlit("#summary");
    reveal_strlit(":currentOwner");
    reveal_strlit(":nameValue");
    reveal_strlit(":ingredientsValue");
    reveal_strlit(":instructionsValue");
    reveal_strlit(":notesValue");
    reveal_strlit(":summaryValue");
    reveal_strlit(":ownerValue");
    assert("#owner"@.len() == 6 && "#name"@.len() == 5 && "#ingredients"@.len() == 12);
    assert("#instructions"@.len() == 13 && "#notes"@.len() == 6 && "#summary"@.len() == 8);
    assert("#owner"@[1] != "#notes"@[1]);
    assert(":currentOwner"@.len() == 13 && ":nameValue"@.len() == 10);
    assert(":ingredientsValue"@.len() == 17 && ":instructionsValue"@.len() == 18);
    assert(":notesValue"@.len() == 11 && ":summaryValue"@.len() == 13);
    assert(":ownerValue"@.len() == 11);
    assert(":currentOwner"@[1] != ":summaryValue"@[1]);
    assert(":notesValue"@[1] != ":ownerValue"@[1]);
}

/// What the table is told uses no word twice: each `#` word stands for one
/// name and each `:` word for one value.
pub proof fn lemma_expression_distinct(request: UpdateRequestView)
    ensures
        distinct_words(expression(request).names),
        distinct_names(expression(request).values),
{
    lemma_words_differ();
    let changes = request.updated_recipe;

    let n0 = seq![alias("#owner"@, "owner"@)];
    let k0 = Set::<Seq<char>>::empty().insert("#owner"@);
    assert(distinct_words(n0));
    assert(words_among(n0, k0));
    let m1 = when(changes.name is Some, alias("#name"@, "name"@));
    lemma_extend_words(n0, k0, m1, "#name"@);
    let n1 = n0 + m1;
    let k1 = k0.insert("#name"@);
    let m2 = when(changes.ingredients is Some, alias("#ingredients"@, "ingredients"@));
    lemma_extend_words(n1, k1, m2, "#ingredients"@);
    let n2 = n1 + m2;
    let k2 = k1.insert("#ingredients"@);
    let m3 = when(changes.instructions is Some, alias("#instructions"@, "instructions"@));
    lemma_extend_words(n2, k2, m3, "#instructions"@);
    let n3 = n2 + m3;
    let k3 = k2.insert("#instructions"@);
    let m4 = when(changes.notes is Some, alias("#notes"@, "notes"@));
    lemma_extend_words(n3, k3, m4, "#notes"@);
    let n4 = n3 + m4;
    let k4 = k3.insert("#notes"@);
    let m5 = when(changes.summary is Some, alias("#summary"@, "summary"@));
    lemma_extend_words(n4, k4, m5, "#summary"@);
    assert(n4 + m5 == names(changes));

    let v0 = seq![text(":currentOwner"@, request.owner)];
    let w0 = Set::<Seq<char>>::empty().insert(":currentOwner"@);
    assert(distinct_names(v0));
    assert(names_among(v0, w0));
    let a1 = when(changes.name is Some, text(":nameValue"@, given(changes.name)));
    lemma_extend_record(v0, w0, a1, ":nameValue"@);
    let v1 = v0 + a1;
    let w1 = w0.insert(":nameValue"@);
    let a2 = when(
        changes.ingredients is Some,
        text(":ingredientsValue"@, given_list(changes.ingredients)),
    );
    lemma_extend_record(v1, w1, a2, ":ingredientsValue"@);
    let v2 = v1 + a2;
    let w2 = w1.insert(":ingredientsValue"@);
    let a3 = when(
        changes.instructions is Some,
        text(":instructionsValue"@, given_list(changes.instructions)),
    );
    lemma_extend_record(v2, w2, a3, ":instructionsValue"@);
    let v3 = v2 + a3;
    let w3 = w2.insert(":instructionsValue"@);
    let a4 = when(changes.notes is Some, text(":notesValue"@, given(changes.notes)));
    lemma_extend_record(v3, w3, a4, ":notesValue"@);
    let v4 = v3 + a4;
    let w4 = w3.insert(":notesValue"@);
    let a5 = when(changes.summary is Some, text(":summaryValue"@, given(changes.summary)));
    lemma_extend_record(v4, w4, a5, ":summaryValue"@);
    let v5 = v4 + a5;
    let w5 = w4.insert(":summaryValue"@);
    let a6 = when(changes.owner is Some, text(":ownerValue"@, given(changes.owner)));
    lemma_extend_record(v5, w5, a6, ":ownerValue"@);
    assert(v5 + a6 == values(request));
}

/// The items with `separator` between neighbours: see [`separated`].
pub fn join_with(items: &Vec<String>, separator: &str) -> (joined: String)
    ensures
        joined@ == separated(items.deep_view(), separator@),
{
    let mut joined = String::new();
    let ghost all = items.deep_view();
    let mut i: usize = 0;
    while i < items.len()
        invariant
            i <= items.len(),
            all == items.deep_view(),
            joined@ == separated(all.take(i as int), separator@),
        decreases items.len() - i,
    {
        proof {
            let upto = all.take(i + 1);
            assert(upto.drop_last() == all.take(i as int));
            assert(upto.last() == items[i as int]@);
            assert(Seq::<char>::empty() + items[i as int]@ == items[i as int]@);
        }
        if i > 0 {
            joined.append(separator);
        }
        joined.append(items[i].as_str());
        i += 1;
    }
    assert(all.take(items.len() as int) == all);
    joined
}

/// The stored form of an optional list: see [`given_list`].
fn stored(lines: Option<Vec<String>>) -> (text: Option<String>)
    ensures
        text is Some == lines is Some,
        given(text.deep_view()) == given_list(lines.deep_view()),
{
    match lines {
        Some(lines) => Some(join_strings(lines)),
        None => None,
    }
}

/// Puts down one field of a change, if it is given: its assignment, the
/// word for its name and the word for its value.
fn set(
    told: &mut Vec<String>,
    names: &mut Vec<Alias>,
    values: &mut Vec<Attribute>,
    field: Option<String>,
    assignment: &str,
    placeholder: &str,
    name: &str,
    word: &str,
)
    ensures
        final(told).deep_view() == old(told).deep_view() + when(field is Some, assignment@),
        final(names).deep_view() == old(names).deep_view() + when(
            field is Some,
            alias(placeholder@, name@),
        ),
        final(values).deep_view() == old(values).deep_view() + when(
            field is Some,
            text(word@, given(field.deep_view())),
        ),
{
    let ghost before = (told.deep_view(), names.deep_view(), values.deep_view());
    if let Some(value) = field {
        told.push(String::from_str(assignment));
        names.push(alias_of(placeholder, name));
        values.push(text_attribute(word, value));
        assert(told.deep_view() =~= before.0 + seq![assignment@]);
        assert(names.deep_view() =~= before.1 + seq![alias(placeholder@, name@)]);
        assert(values.deep_view() =~= before.2 + seq![text(word@, value@)]);
    } else {
        assert(told.deep_view() =~= before.0 + Seq::<Seq<char>>::empty());
        assert(names.deep_view() =~= before.1 + Seq::<AliasView>::empty());
        assert(values.deep_view() =~= before.2 + Seq::<AttributeView>::empty());
    }
}

impl Expression {
    /// What the table is told for a request: see [`expression`].
    pub fn from(req: UpdateRequest) -> (told: Expression)
        ensures
            told@ == expression(req@),
            distinct_words(told@.names),
            distinct_names(told@.values),
    {
        let ghost request = req@;
        proof {
            lemma_expression_distinct(request);
        }
        let ghost changes = request.updated_recipe;
        let recipe = req.updated_recipe;
        let mut expressions: Vec<String> = Vec::new();
        let mut names: Vec<Alias> = Vec::new();
        let mut values: Vec<Attribute> = Vec::new();

        values.push(text_attribute(":currentOwner", req.owner));
        names.push(alias_of("#owner", "owner"));
        assert(expressions.deep_view() =~= Seq::<Seq<char>>::empty());
        assert(names.deep_view() =~= seq![alias("#owner"@, "owner"@)]);
        assert(values.deep_view() =~= seq![text(":currentOwner"@, request.owner)]);

        set(
            &mut expressions,
            &mut names,
            &mut values,
            recipe.name,
            "#name = :nameValue",
            "#name",
            "name",
            ":nameValue",
        );
        set(
            &mut expressions,
            &mut names,
            &mut values,
            stored(recipe.ingredients),
            "#ingredients = :ingredientsValue",
            "#ingredients",
            "ingredients",
            ":ingredientsValue",
        );
        set(
            &mut expressions,
            &mut names,
            &mut values,
            stored(recipe.instructions),
            "#instructions = :instructionsValue",
            "#instructions",
            "instructions",
            ":instructionsValue",
        );
        set(
            &mut expressions,
            &mut names,
            &mut values,
            recipe.notes,
            "#notes = :notesValue",
            "#notes",
            "notes",
            ":notesValue",
        );
        set(
            &mut expressions,
            &mut names,
            &mut values,
            recipe.summary,
            "#summary = :summaryValue",
            "#summary",
            "summary",
            ":summaryValue",
        );
        assert(names.deep_view() =~= self::names(changes));
        let ghost told = expressions.deep_view();
        let ghost valued = values.deep_view();
        if let Some(owner) = recipe.owner {
            expressions.push(String::from_str("#owner = :ownerValue"));
            values.push(text_attribute(":ownerValue", owner));
            assert(expressions.deep_view() =~= told + seq!["#owner = :ownerValue"@]);
            assert(values.deep_view() =~= valued + seq![text(":ownerValue"@, owner@)]);
        }
        assert(expressions.deep_view() =~= assignments(changes));
        assert(values.deep_view() =~= self::values(request));
        let list = join_with(&expressions, ",");
        Expression {
            expression: concat("SET ", list.as_str()),
            condition: String::from_str(CONDITION),
            names,
            values: Item { attributes: values },
        }
    }
}

} // verus!
