//! Records as the table holds them: named attributes with text values.

use vstd::prelude::*;
use vstd::string::StringExecFns;

use crate::lists::{join, join_strings, lemma_split_join, split, split_string};
use crate::model::RecipeView;

verus! {

/// The value of an attribute, as far as the service reads it: a text, or
/// something that is no text.
#[derive(Clone, Debug, PartialEq, Eq)]
pub enum AttributeValue {
    /// A text.
    S(String),
    /// A number, in digits.
    N(String),
    /// A value of another kind.
    Other,
}

/// One named attribute of a record.
#[derive(Clone, Debug, PartialEq, Eq)]
pub struct Attribute {
    pub name: String,
    pub value: AttributeValue,
}

/// A record: its attributes. The table holds no name twice, and the records
/// that this library writes hold none twice either: see
/// [`distinct_names`]. Where a record of another making holds a name more
/// than once, the first occurrence counts.
#[derive(Clone, Debug, PartialEq, Eq)]
pub struct Item {
    pub attributes: Vec<Attribute>,
}

pub enum AttributeValueView {
    S(Seq<char>),
    N(Seq<char>),
    Other,
}

pub struct AttributeView {
    pub name: Seq<char>,
    pub value: AttributeValueView,
}

impl View for AttributeValue {
    type V = AttributeValueView;

    open spec fn view(&self) -> AttributeValueView {
        match self {
            AttributeValue::S(text) => AttributeValueView::S(text@),
            AttributeValue::N(digits) => AttributeValueView::N(digits@),
            AttributeValue::Other => AttributeValueView::Other,
        }
    }
}

impl DeepView for AttributeValue {
    type V = AttributeValueView;

    open spec fn deep_view(&self) -> AttributeValueView {
        self@
    }
}

impl View for Attribute {
    type V = AttributeView;

    open spec fn view(&self) -> AttributeView {
        AttributeView { name: self.name@, value: self.value@ }
    }
}

impl DeepView for Attribute {
    type V = AttributeView;

    open spec fn deep_view(&self) -> AttributeView {
        self@
    }
}

impl View for Item {
    type V = Seq<AttributeView>;

    open spec fn view(&self) -> Seq<AttributeView> {
        self.attributes.deep_view()
    }
}

/// The value of the attribute `name` in a record, if the record has it.
pub open spec fn lookup(item: Seq<AttributeView>, name: Seq<char>) -> Option<AttributeValueView>
    decreases item.len(),
{
    if item.len() == 0 {
        None
    } else if item[0].name == name {
        Some(item[0].value)
    } else {
        lookup(item.drop_first(), name)
    }
}

/// The text of an attribute; `default` where the attribute is missing or is
/// no text.
pub open spec fn text_or(value: Option<AttributeValueView>, default: Seq<char>) -> Seq<char> {
    match value {
        Some(AttributeValueView::S(text)) => text,
        _ => default,
    }
}

/// A text attribute.
pub open spec fn text(name: Seq<char>, value: Seq<char>) -> AttributeView {
    AttributeView { name, value: AttributeValueView::S(value) }
}

/// A text attribute.
pub fn text_attribute(name: &str, value: String) -> (attribute: Attribute)
    ensures
        attribute@ == text(name@, value@),
{
    Attribute { name: String::from_str(name), value: AttributeValue::S(value) }
}

impl Item {
    /// The value of the attribute `name`, if the record has it.
    pub fn get(&self, name: &str) -> (value: Option<&AttributeValue>)
        ensures
            match value {
                Some(value) => lookup(self@, name@) == Some(value@),
                None => lookup(self@, name@).is_none(),
            },
    {
        let wanted = String::from_str(name);
        let mut i: usize = 0;
        assert(self@.skip(0) == self@);
        while i < self.attributes.len()
            invariant
                i <= self.attributes.len(),
                wanted@ == name@,
                lookup(self@, name@) == lookup(self@.skip(i as int), name@),
            decreases self.attributes.len() - i,
        {
            let ghost rest = self@.skip(i as int);
            assert(rest[0] == self.attributes[i as int]@);
            assert(rest.drop_first() == self@.skip(i + 1));
            if self.attributes[i].name == wanted {
                return Some(&self.attributes[i].value);
            }
            i += 1;
        }
        None
    }
}

/// The text of an attribute; `default` where the attribute is missing or is
/// no text.
pub fn as_string(val: Option<&AttributeValue>, default: &String) -> (text: String)
    ensures
        text@ == text_or(val.deep_view(), default@),
{
    match val {
        Some(AttributeValue::S(s)) => s.clone(),
        _ => default.clone(),
    }
}

/// A recipe as the table holds it.
#[derive(Clone, Debug, PartialEq, Eq)]
pub struct Recipe {
    /// The key of the record.
    pub uuid: String,
    pub name: String,
    pub ingredients: Vec<String>,
    pub instructions: Vec<String>,
    pub notes: String,
    pub summary: String,
    /// The address of the recipe's picture.
    pub image: String,
}

pub struct StoredRecipeView {
    pub uuid: Seq<char>,
    pub name: Seq<char>,
    pub ingredients: Seq<Seq<char>>,
    pub instructions: Seq<Seq<char>>,
    pub notes: Seq<char>,
    pub summary: Seq<char>,
    pub image: Seq<char>,
}

impl View for Recipe {
    type V = StoredRecipeView;

    open spec fn view(&self) -> StoredRecipeView {
        StoredRecipeView {
            uuid: self.uuid@,
            name: self.name@,
            ingredients: self.ingredients.deep_view(),
            instructions: self.instructions.deep_view(),
            notes: self.notes@,
            summary: self.summary@,
            image: self.image@,
        }
    }
}

/// The recipe that a record holds. An attribute that is missing or is no
/// text reads as its name in capitals; the two lists are read with
/// [`split`].
pub open spec fn stored_recipe(item: Seq<AttributeView>) -> StoredRecipeView {
    StoredRecipeView {
        uuid: text_or(lookup(item, "uuid"@), "UUID"@),
        name: text_or(lookup(item, "name"@), "NAME"@),
        ingredients: split(text_or(lookup(item, "ingredients"@), "INGREDIENTS"@)),
        instructions: split(text_or(lookup(item, "instructions"@), "INSTRUCTIONS"@)),
        notes: text_or(lookup(item, "notes"@), "NOTES"@),
        summary: text_or(lookup(item, "summary"@), "SUMMARY"@),
        image: text_or(lookup(item, "image"@), "IMAGE"@),
    }
}

impl Recipe {
    /// The recipe that a record holds: see [`stored_recipe`].
    pub fn from(value: &Item) -> (recipe: Recipe)
        ensures
            recipe@ == stored_recipe(value@),
    {
        Recipe {
            uuid: as_string(value.get("uuid"), &String::from_str("UUID")),
            name: as_string(value.get("name"), &String::from_str("NAME")),
            ingredients: split_string(
                as_string(value.get("ingredients"), &String::from_str("INGREDIENTS")),
            ),
            instructions: split_string(
                as_string(value.get("instructions"), &String::from_str("INSTRUCTIONS")),
            ),
            notes: as_string(value.get("notes"), &String::from_str("NOTES")),
            summary: as_string(value.get("summary"), &String::from_str("SUMMARY")),
            image: as_string(value.get("image"), &String::from_str("IMAGE")),
        }
    }
}

/// The record that is written for a structured recipe: its key, whom it is
/// credited to (the key itself where nobody is named), its fields with the
/// two lists written by [`join`], and the address of its picture.
pub open spec fn record(
    recipe: RecipeView,
    key: Seq<char>,
    image: Seq<char>,
    credit: Option<Seq<char>>,
) -> Seq<AttributeView> {
    seq![
        text("uuid"@, key),
        text(
            "credit"@,
            match credit {
                Some(credit) => credit,
                None => key,
            },
        ),
        text("name"@, recipe.name),
        text("ingredients"@, join(recipe.ingredients)),
        text("instructions"@, join(recipe.instructions)),
        text("notes"@, recipe.notes),
        text("summary"@, recipe.summary),
        text("image"@, image),
    ]
}

/// Whether no name occurs twice in a record.
pub open spec fn distinct_names(item: Seq<AttributeView>) -> bool {
    forall|i: int, j: int| 0 <= i < j < item.len() ==> item[i].name != item[j].name
}

/// Whether no word stands for two names.
pub open spec fn distinct_words(names: Seq<AliasView>) -> bool {
    forall|i: int, j: int| 0 <= i < j < names.len() ==> names[i].placeholder != names[j].placeholder
}

/// Whether every name in a record is among `known`.
pub open spec fn names_among(item: Seq<AttributeView>, known: Set<Seq<char>>) -> bool {
    forall|i: int| 0 <= i < item.len() ==> known.contains(#[trigger] item[i].name)
}

/// Whether every word in a list is among `known`.
pub open spec fn words_among(names: Seq<AliasView>, known: Set<Seq<char>>) -> bool {
    forall|i: int| 0 <= i < names.len() ==> known.contains(#[trigger] names[i].placeholder)
}

/// A record stays free of repeated names when it is extended by nothing
/// or by one attribute, whose name `name` is new to it.
pub proof fn lemma_extend_record(
    item: Seq<AttributeView>,
    known: Set<Seq<char>>,
    more: Seq<AttributeView>,
    name: Seq<char>,
)
    requires
        distinct_names(item),
        names_among(item, known),
        !known.contains(name),
        more.len() == 0 || (more.len() == 1 && more[0].name == name),
    ensures
        distinct_names(item + more),
        names_among(item + more, known.insert(name)),
{
    let all = item + more;
    assert forall|i: int, j: int| 0 <= i < j < all.len() implies all[i].name != all[j].name by {
        assert(all[i] == item[i]);
        if j < item.len() {
            assert(all[j] == item[j]);
        } else {
            assert(all[j] == more[0]);
            assert(known.contains(item[i].name));
        }
    }
    assert forall|i: int| 0 <= i < all.len() implies known.insert(name).contains(
        #[trigger] all[i].name,
    ) by {
        if i < item.len() {
            assert(all[i] == item[i]);
            assert(known.contains(item[i].name));
        } else {
            assert(all[i] == more[0]);
        }
    }
}

/// A list of words stays free of repeated words when it is extended by
/// nothing or by one word, `word`, that is new to it.
pub proof fn lemma_extend_words(
    names: Seq<AliasView>,
    known: Set<Seq<char>>,
    more: Seq<AliasView>,
    word: Seq<char>,
)
    requires
        distinct_words(names),
        words_among(names, known),
        !known.contains(word),
        more.len() == 0 || (more.len() == 1 && more[0].placeholder == word),
    ensures
        distinct_words(names + more),
        words_among(names + more, known.insert(word)),
{
    let all = names + more;
    assert forall|i: int, j: int| 0 <= i < j < all.len() implies all[i].placeholder
        != all[j].placeholder by {
        assert(all[i] == names[i]);
        if j < names.len() {
            assert(all[j] == names[j]);
        } else {
            assert(all[j] == more[0]);
            assert(known.contains(names[i].placeholder));
        }
    }
    assert forall|i: int| 0 <= i < all.len() implies known.insert(word).contains(
        #[trigger] all[i].placeholder,
    ) by {
        if i < names.len() {
            assert(all[i] == names[i]);
            assert(known.contains(names[i].placeholder));
        } else {
            assert(all[i] == more[0]);
        }
    }
}

/// The names of the attributes of a recipe's record differ from one another.
pub proof fn lemma_attribute_names()
    ensures
        "uuid"@ != "credit"@,
        "uuid"@ != "name"@,
        "uuid"@ != "ingredients"@,
        "uuid"@ != "instructions"@,
        "uuid"@ != "notes"@,
        "uuid"@ != "summary"@,
        "uuid"@ != "image"@,
        "credit"@ != "name"@,
        "credit"@ != "ingredients"@,
        "credit"@ != "instructions"@,
        "credit"@ != "notes"@,
        "credit"@ != "summary"@,
        "credit"@ != "image"@,
        "name"@ != "ingredients"@,
        "name"@ != "instructions"@,
        "name"@ != "notes"@,
        "name"@ != "summary"@,
        "name"@ != "image"@,
        "ingredients"@ != "instructions"@,
        "ingredients"@ != "notes"@,
        "ingredients"@ != "summary"@,
        "ingredients"@ != "image"@,
        "instructions"@ != "notes"@,
        "instructions"@ != "summary"@,
        "instructions"@ != "image"@,
        "notes"@ != "summary"@,
        "notes"@ != "image"@,
        "summary"@ != "image"@,
{
    reveal_strlit("uuid");
    reveal_strlit("credit");
    reveal_strlit("name");
    reveal_strlit("ingredients");
    reveal_strlit("instructions");
    reveal_strlit("notes");
    reveal_strlit("summary");
    reveal_strlit("image");
    assert("uuid"@.len() == 4 && "credit"@.len() == 6 && "name"@.len() == 4);
    assert("ingredients"@.len() == 11 && "instructions"@.len() == 12);
    assert("notes"@.len() == 5 && "summary"@.len() == 7 && "image"@.len() == 5);
    assert("uuid"@[0] != "name"@[0]);
    assert("notes"@[0] != "image"@[0]);
}

/// What a recipe's record holds under each of its names.
pub proof fn lemma_record_lookup(
    recipe: RecipeView,
    key: Seq<char>,
    image: Seq<char>,
    credit: Option<Seq<char>>,
)
    ensures
        ({
            let item = record(recipe, key, image, credit);
            &&& lookup(item, "uuid"@) == Some(AttributeValueView::S(key))
            &&& lookup(item, "credit"@) == Some(
                AttributeValueView::S(
                    match credit {
                        Some(credit) => credit,
                        None => key,
                    },
                ),
            )
            &&& lookup(item, "name"@) == Some(AttributeValueView::S(recipe.name))
            &&& lookup(item, "ingredients"@) == Some(
                AttributeValueView::S(join(recipe.ingredients)),
            )
            &&& lookup(item, "instructions"@) == Some(
                AttributeValueView::S(join(recipe.instructions)),
            )
            &&& lookup(item, "notes"@) == Some(AttributeValueView::S(recipe.notes))
            &&& lookup(item, "summary"@) == Some(AttributeValueView::S(recipe.summary))
            &&& lookup(item, "image"@) == Some(AttributeValueView::S(image))
        }),
{
    lemma_attribute_names();
    let item = record(recipe, key, image, credit);
    let i1 = item.drop_first();
    let i2 = i1.drop_first();
    let i3 = i2.drop_first();
    let i4 = i3.drop_first();
    let i5 = i4.drop_first();
    let i6 = i5.drop_first();
    let i7 = i6.drop_first();
    assert(item[0].name == "uuid"@);
    assert(i1[0].name == "credit"@);
    assert(i2[0].name == "name"@);
    assert(i3[0].name == "ingredients"@);
    assert(i4[0].name == "instructions"@);
    assert(i5[0].name == "notes"@);
    assert(i6[0].name == "summary"@);
    assert(i7[0].name == "image"@);
    reveal_with_fuel(lookup, 9);
}

/// The record of a recipe holds no name twice.
pub proof fn lemma_record_distinct(
    recipe: RecipeView,
    key: Seq<char>,
    image: Seq<char>,
    credit: Option<Seq<char>>,
)
    ensures
        distinct_names(record(recipe, key, image, credit)),
{
    lemma_attribute_names();
    let item = record(recipe, key, image, credit);
    assert(item[0].name == "uuid"@);
    assert(item[1].name == "credit"@);
    assert(item[2].name == "name"@);
    assert(item[3].name == "ingredients"@);
    assert(item[4].name == "instructions"@);
    assert(item[5].name == "notes"@);
    assert(item[6].name == "summary"@);
    assert(item[7].name == "image"@);
}

/// A recipe that lists at least one ingredient and one step is read back
/// from its record as it was written, with the record's key and picture.
pub proof fn lemma_record_reads_back(
    recipe: RecipeView,
    key: Seq<char>,
    image: Seq<char>,
    credit: Option<Seq<char>>,
)
    requires
        recipe.complete(),
    ensures
        stored_recipe(record(recipe, key, image, credit)) == (StoredRecipeView {
            uuid: key,
            name: recipe.name,
            ingredients: recipe.ingredients,
            instructions: recipe.instructions,
            notes: recipe.notes,
            summary: recipe.summary,
            image,
        }),
{
    lemma_record_lookup(recipe, key, image, credit);
    lemma_split_join(recipe.ingredients);
    lemma_split_join(recipe.instructions);
}

/// The table, as far as this library speaks of it: the record that is
/// stored under each key.
pub type Table = Map<Seq<char>, Seq<AttributeView>>;

/// The key of a record: the text of its `uuid` attribute.
pub open spec fn key_of(item: Seq<AttributeView>) -> Seq<char> {
    text_or(lookup(item, "uuid"@), Seq::empty())
}

/// The table after `item` was written: `item` stands under its key, in
/// place of whatever stood there.
pub open spec fn put(table: Table, item: Seq<AttributeView>) -> Table {
    table.insert(key_of(item), item)
}

/// Of two records that are written under one key, only the second is left:
/// the table is as if the first had never been written.
pub proof fn lemma_second_write_replaces(
    table: Table,
    key: Seq<char>,
    first: RecipeView,
    first_image: Seq<char>,
    first_credit: Option<Seq<char>>,
    second: RecipeView,
    second_image: Seq<char>,
    second_credit: Option<Seq<char>>,
)
    ensures
        ({
            let one = record(first, key, first_image, first_credit);
            let two = record(second, key, second_image, second_credit);
            &&& put(put(table, one), two) == put(table, two)
            &&& put(put(table, one), two)[key] == two
        }),
{
    lemma_record_lookup(first, key, first_image, first_credit);
    lemma_record_lookup(second, key, second_image, second_credit);
    let one = record(first, key, first_image, first_credit);
    let two = record(second, key, second_image, second_credit);
    assert(put(put(table, one), two) =~= put(table, two));
}

/// The record that is written for a structured recipe: see [`record`].
pub fn recipe_record(
    recipe: crate::model::Recipe,
    url: &str,
    image_url: &str,
    credit: Option<String>,
) -> (item: Item)
    ensures
        item@ == record(recipe@, url@, image_url@, credit.deep_view()),
        distinct_names(item@),
{
    proof {
        lemma_record_distinct(recipe@, url@, image_url@, credit.deep_view());
    }
    let ghost wanted = record(recipe@, url@, image_url@, credit.deep_view());
    let credit = match credit {
        Some(credit) => credit,
        None => String::from_str(url),
    };
    let mut attributes: Vec<Attribute> = Vec::new();
    attributes.push(text_attribute("uuid", String::from_str(url)));
    attributes.push(text_attribute("credit", credit));
    attributes.push(text_attribute("name", recipe.name));
    attributes.push(text_attribute("ingredients", join_strings(recipe.ingredients)));
    attributes.push(text_attribute("instructions", join_strings(recipe.instructions)));
    attributes.push(text_attribute("notes", recipe.notes));
    attributes.push(text_attribute("summary", recipe.summary));
    attributes.push(text_attribute("image", String::from_str(image_url)));
    let item = Item { attributes };
    assert(item@ =~= wanted);
    item
}

/// Which recipe a user has collected.
#[derive(Clone, Debug, PartialEq, Eq)]
pub struct RecipeMetaData {
    pub username: String,
    /// The key of the recipe.
    pub uuid: String,
}

pub struct RecipeMetaDataView {
    pub username: Seq<char>,
    pub uuid: Seq<char>,
}

impl View for RecipeMetaData {
    type V = RecipeMetaDataView;

    open spec fn view(&self) -> RecipeMetaDataView {
        RecipeMetaDataView { username: self.username@, uuid: self.uuid@ }
    }
}

/// What a record of the users' table says. An attribute that is missing or
/// is no text reads as its name in capitals.
pub open spec fn stored_metadata(item: Seq<AttributeView>) -> RecipeMetaDataView {
    RecipeMetaDataView {
        username: text_or(lookup(item, "username"@), "USERNAME"@),
        uuid: text_or(lookup(item, "uuid"@), "UUID"@),
    }
}

impl RecipeMetaData {
    /// What a record of the users' table says: see [`stored_metadata`].
    pub fn from(value: &Item) -> (metadata: RecipeMetaData)
        ensures
            metadata@ == stored_metadata(value@),
    {
        RecipeMetaData {
            username: as_string(value.get("username"), &String::from_str("USERNAME")),
            uuid: as_string(value.get("uuid"), &String::from_str("UUID")),
        }
    }
}

/// A user's request to collect a recipe.
#[derive(Clone, Debug, PartialEq, Eq)]
pub struct RequestBody {
    pub username: String,
    /// The key of the recipe.
    pub uuid: String,
}

/// The record that says that `username` has collected the recipe `uuid`.
pub open spec fn collected(username: Seq<char>, uuid: Seq<char>) -> Seq<AttributeView> {
    seq![text("username"@, username), text("uuid"@, uuid)]
}

/// The record of a collected recipe holds no name twice.
pub proof fn lemma_collected_distinct(username: Seq<char>, uuid: Seq<char>)
    ensures
        distinct_names(collected(username, uuid)),
{
    reveal_strlit("username");
    reveal_strlit("uuid");
    assert("username"@.len() == 8 && "uuid"@.len() == 4);
    let item = collected(username, uuid);
    assert(item[0].name == "username"@);
    assert(item[1].name == "uuid"@);
}

impl RequestBody {
    /// The record that is written for the request: see [`collected`].
    pub fn record(self) -> (item: Item)
        ensures
            item@ == collected(self.username@, self.uuid@),
            distinct_names(item@),
    {
        proof {
            lemma_collected_distinct(self.username@, self.uuid@);
        }
        let mut attributes: Vec<Attribute> = Vec::new();
        attributes.push(text_attribute("username", self.username));
        attributes.push(text_attribute("uuid", self.uuid));
        let item = Item { attributes };
        assert(item@ =~= collected(self.username@, self.uuid@));
        item
    }
}

/// What the users' table is asked for: the records that match `condition`,
/// in which `names` says what each `#` word stands for and `values` what
/// each `:` word does.
#[derive(Clone, Debug, PartialEq, Eq)]
pub struct Query {
    pub condition: String,
    pub names: Vec<Alias>,
    pub values: Item,
}

/// A word that stands for the name of an attribute.
#[derive(Clone, Debug, PartialEq, Eq)]
pub struct Alias {
    pub placeholder: String,
    pub name: String,
}

pub struct AliasView {
    pub placeholder: Seq<char>,
    pub name: Seq<char>,
}

pub struct QueryView {
    pub condition: Seq<char>,
    pub names: Seq<AliasView>,
    pub values: Seq<AttributeView>,
}

impl View for Alias {
    type V = AliasView;

    open spec fn view(&self) -> AliasView {
        AliasView { placeholder: self.placeholder@, name: self.name@ }
    }
}

impl DeepView for Alias {
    type V = AliasView;

    open spec fn deep_view(&self) -> AliasView {
        self@
    }
}

impl View for Query {
    type V = QueryView;

    open spec fn view(&self) -> QueryView {
        QueryView {
            condition: self.condition@,
            names: self.names.deep_view(),
            values: self.values@,
        }
    }
}

/// A word that stands for the name of an attribute.
pub open spec fn alias(placeholder: Seq<char>, name: Seq<char>) -> AliasView {
    AliasView { placeholder, name }
}

/// A word that stands for the name of an attribute.
pub fn alias_of(placeholder: &str, name: &str) -> (word: Alias)
    ensures
        word@ == alias(placeholder@, name@),
{
    Alias { placeholder: String::from_str(placeholder), name: String::from_str(name) }
}

/// The query for the recipes that `username` has collected. The user's
/// name is given as a number, which is how the table's key is declared.
pub open spec fn collection_of(username: Seq<char>) -> QueryView {
    QueryView {
        condition: "#un = :username"@,
        names: seq![alias("#un"@, "username"@)],
        values: seq![
            AttributeView { name: ":username"@, value: AttributeValueView::N(username) },
        ],
    }
}

impl Query {
    /// The query for the recipes that `username` has collected: see
    /// [`collection_of`].
    pub fn collection(username: String) -> (query: Query)
        ensures
            query@ == collection_of(username@),
    {
        let mut names: Vec<Alias> = Vec::new();
        names.push(alias_of("#un", "username"));
        let mut attributes: Vec<Attribute> = Vec::new();
        attributes.push(
            Attribute { name: String::from_str(":username"), value: AttributeValue::N(username) },
        );
        let query = Query {
            condition: String::from_str("#un = :username"),
            names,
            values: Item { attributes },
        };
        assert(query@.names =~= collection_of(username@).names);
        assert(query@.values =~= collection_of(username@).values);
        query
    }
}

} // verus!
