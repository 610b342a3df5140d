use recipe_pipeline::extract::{
    accept, compose_message, extract_json, object_of_reply, ExtractionError, INCOMPLETE, PROMPT,
};
use recipe_pipeline::model::Recipe;

fn small_pie() -> Recipe {
    Recipe {
        name: "Pie".to_string(),
        ingredients: vec!["flour".to_string()],
        instructions: vec!["bake".to_string()],
        notes: String::new(),
        summary: "a pie".to_string(),
    }
}

#[test]
fn a_flat_object_is_found_whole() {
    let reply = "Here you go: {\"name\":\"Pie\",\"notes\":\"\"} Enjoy!";
    assert_eq!(extract_json(reply), Some("{\"name\":\"Pie\",\"notes\":\"\"}".to_string()));
}

#[test]
fn an_object_alone_is_returned_as_it_is() {
    let reply = "{\"name\":\"Pie\",\"ingredients\":[\"flour\"],\"instructions\":[\"bake\"],\"notes\":\"\",\"summary\":\"a pie\"}";
    assert_eq!(extract_json(reply), Some(reply.to_string()));
}

#[test]
fn a_nested_object_is_cut_at_the_inner_end() {
    let reply = "{\"name\":\"Pie\",\"extra\":{\"a\":1},\"notes\":\"\"}";
    let span = extract_json(reply).unwrap();
    assert_eq!(span, "{\"name\":\"Pie\",\"extra\":{\"a\":1}");
    assert_ne!(span, reply);
    assert_eq!(span.matches('{').count(), 2);
    assert_eq!(span.matches('}').count(), 1);
}

#[test]
fn no_span_without_both_braces() {
    assert_eq!(extract_json("no json here"), None);
    assert_eq!(extract_json("only { opens"), None);
    assert_eq!(extract_json("only } closes"), None);
    assert_eq!(extract_json(""), None);
}

#[test]
fn no_span_when_the_first_close_comes_first() {
    assert_eq!(extract_json("} then {"), None);
    assert_eq!(extract_json("}{}"), None);
}

#[test]
fn the_smallest_span() {
    assert_eq!(extract_json("{}"), Some("{}".to_string()));
    assert_eq!(extract_json("a{}b{}c"), Some("{}".to_string()));
}

#[test]
fn a_span_with_wide_characters() {
    assert_eq!(extract_json("caf\u{e9} {\"n\":\"cr\u{e8}me\"} fin"), Some("{\"n\":\"cr\u{e8}me\"}".to_string()));
}

#[test]
fn the_message_is_the_prompt_a_space_and_the_text() {
    assert_eq!(compose_message("Pie Recipe"), format!("{} {}", PROMPT, "Pie Recipe"));
    assert_eq!(compose_message(""), format!("{} ", PROMPT));
}

#[test]
fn the_prompt_asks_for_the_five_fields() {
    assert!(PROMPT.starts_with("Parse the recipe from the web page content and format it in JSON"));
    assert!(PROMPT.contains("{name: <str>, ingredients: [], instructions: [], notes: <str>, summary: <str>}"));
    assert!(PROMPT.ends_with("just add the header as an item in the list."));
}

#[test]
fn each_error_has_its_words() {
    assert_eq!(
        ExtractionError::Transport("timeout".to_string()).description(),
        "Error getting response from OpenAI: timeout"
    );
    assert_eq!(ExtractionError::NoContent.description(), "Could not get message content");
    assert_eq!(ExtractionError::NoObject.description(), "Error parsing recipe contents!");
    assert_eq!(
        ExtractionError::Shape("missing field `name`".to_string()).description(),
        "Error parsing JSON missing field `name`"
    );
}

#[test]
fn a_reply_without_content_is_an_error() {
    assert_eq!(object_of_reply(None), Err(ExtractionError::NoContent));
}

#[test]
fn a_reply_without_an_object_is_an_error() {
    assert_eq!(object_of_reply(Some("I cannot help".to_string())), Err(ExtractionError::NoObject));
}

#[test]
fn a_reply_with_an_object_gives_the_object() {
    assert_eq!(object_of_reply(Some("Sure: {\"a\":1}.".to_string())), Ok("{\"a\":1}".to_string()));
}

#[test]
fn a_complete_recipe_is_accepted() {
    assert_eq!(accept(small_pie()), Ok(small_pie()));
}

#[test]
fn a_recipe_without_ingredients_or_steps_is_refused() {
    let mut bare = small_pie();
    bare.ingredients.clear();
    assert_eq!(accept(bare), Err(ExtractionError::Shape(INCOMPLETE.to_string())));
    let mut idle = small_pie();
    idle.instructions.clear();
    assert_eq!(accept(idle), Err(ExtractionError::Shape(INCOMPLETE.to_string())));
}
