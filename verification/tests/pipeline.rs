use recipe_pipeline::extract::{compose_message, ExtractionError, INCOMPLETE};
use recipe_pipeline::imaging::PLACEHOLDER_IMAGE;
use recipe_pipeline::model::{
    ContentType, FailureResponse, Recipe, SqsResponse, SuccessResponse, TesseractRequest,
    TesseractResponse, WorkerRequest,
};
use recipe_pipeline::ocr::{ConversionJob, FinishedTask};
use recipe_pipeline::pipeline::{Action, Event, Phase, PipelineError, Run, Stage};
use recipe_pipeline::settings::Config;
use recipe_pipeline::store::{AttributeValue, Item, Recipe as StoredRecipe};
use std::collections::HashMap;

const PAGE: &str = "<html><body><h1>Pie Recipe</h1>\
    <script type=\"application/ld+json\">{\"@type\": \"Recipe\"}</script></body></html>";

const REPLY: &str = "{\"name\":\"Pie\",\"ingredients\":[\"flour\"],\"instructions\":[\"bake\"],\"notes\":\"\",\"summary\":\"a pie\"}";

fn settings() -> Config {
    Config {
        api_key: "key".to_string(),
        table_name: "recipes".to_string(),
        bucket_name: "pictures".to_string(),
        region: "us-east-1".to_string(),
        conversion_key: "conversion key".to_string(),
    }
}

fn page_request() -> WorkerRequest {
    WorkerRequest {
        url: "https://example.com/recipe".to_string(),
        content_type: ContentType::URL,
        credit: None,
        uuid: None,
        sqs_url: "https://queue.example/replies".to_string(),
    }
}

fn picture_request(url: &str) -> WorkerRequest {
    WorkerRequest {
        url: url.to_string(),
        content_type: ContentType::IMAGE,
        credit: Some("grandma".to_string()),
        uuid: Some("448b5102-ca04-4451-a18e-692acbeded01".to_string()),
        sqs_url: "https://queue.example/replies".to_string(),
    }
}

fn text_request(text: &str) -> WorkerRequest {
    WorkerRequest {
        url: text.to_string(),
        content_type: ContentType::BULK,
        credit: None,
        uuid: Some("ef0b8b8f-282e-45e1-ada5-8e1ac96f1fc0".to_string()),
        sqs_url: "https://queue.example/replies".to_string(),
    }
}

fn pie() -> Recipe {
    Recipe {
        name: "Pie".to_string(),
        ingredients: vec!["flour".to_string()],
        instructions: vec!["bake".to_string()],
        notes: String::new(),
        summary: "a pie".to_string(),
    }
}

fn finished(name: &str, files: &[&str]) -> FinishedTask {
    FinishedTask {
        name: name.to_string(),
        files: files.iter().map(|file| file.to_string()).collect(),
    }
}

fn failed(reason: &str) -> Event {
    Event::Failed { reason: reason.to_string() }
}

fn failure(request: &WorkerRequest, body: &str) -> Action {
    Action::Notify {
        queue_url: request.sqs_url.clone(),
        response: SqsResponse { status_code: 500, body: body.to_string() },
    }
}

fn text_of(item: &Item, name: &str) -> String {
    match item.get(name) {
        Some(AttributeValue::S(text)) => text.clone(),
        other => panic!("attribute {} is {:?}", name, other),
    }
}

/// Takes a run for a page request up to the point where it waits for the
/// first picture.
fn run_to_imaging(request: WorkerRequest, recipe: Recipe) -> Run {
    let config = settings();
    let (run, _) = Run::start(request);
    let (run, _) = run.step(Event::PageFetched { body: PAGE.to_string() }, &config);
    let (run, _) = run.step(Event::Completed { content: Some(REPLY.to_string()) }, &config);
    let (run, _) = run.step(Event::RecipeDecoded { recipe }, &config);
    assert_eq!(run.stage(), Stage::Imaging);
    run
}

#[test]
fn a_page_request_goes_through() {
    let config = settings();
    let request = page_request();

    let (run, action) = Run::start(request.clone());
    assert_eq!(action, Action::FetchPage { url: "https://example.com/recipe".to_string() });
    assert_eq!(run.stage(), Stage::Resolving);

    let (run, action) = run.step(Event::PageFetched { body: PAGE.to_string() }, &config);
    assert_eq!(
        action,
        Action::Complete { message: compose_message("PieRecipe{\"@type\":\"Recipe\"}") }
    );
    assert_eq!(run.stage(), Stage::Extracting);

    let content = format!("Here is the recipe:\n{}\nEnjoy!", REPLY);
    let (run, action) = run.step(Event::Completed { content: Some(content) }, &config);
    assert_eq!(action, Action::Decode { json: REPLY.to_string() });
    assert_eq!(run.stage(), Stage::Extracting);

    let (run, action) = run.step(Event::RecipeDecoded { recipe: pie() }, &config);
    assert_eq!(action, Action::GenerateImage { prompt: "a pie".to_string() });
    assert_eq!(run.stage(), Stage::Imaging);

    let (run, action) = run.step(
        Event::ImageGenerated { url: "https://images.example/1.png".to_string() },
        &config,
    );
    assert_eq!(action, Action::DownloadImage { url: "https://images.example/1.png".to_string() });

    let picture = vec![0xff, 0xd8, 0xff, 0xe0, 0x00];
    let (run, action) =
        run.step_with(Event::ImageDownloaded { bytes: picture.clone() }, &config, "1234");
    assert_eq!(action, Action::UploadImage { file_name: "1234.jpg".to_string(), bytes: picture });
    assert_eq!(run.stage(), Stage::Imaging);

    let (run, action) = run.step(Event::ImageUploaded, &config);
    let item = match action {
        Action::Store { item } => item,
        other => panic!("expected a record, got {:?}", other),
    };
    assert_eq!(text_of(&item, "uuid"), "https://example.com/recipe");
    assert_eq!(text_of(&item, "credit"), "https://example.com/recipe");
    assert_eq!(text_of(&item, "name"), "Pie");
    assert_eq!(text_of(&item, "ingredients"), "flour");
    assert_eq!(text_of(&item, "instructions"), "bake");
    assert_eq!(text_of(&item, "notes"), "");
    assert_eq!(text_of(&item, "summary"), "a pie");
    assert_eq!(text_of(&item, "image"), "https://pictures.s3.us-east-1.amazonaws.com/1234.jpg");
    assert_eq!(item.attributes.len(), 8);
    assert_eq!(run.stage(), Stage::Persisting);

    let (run, action) = run.step(Event::Stored, &config);
    assert_eq!(
        action,
        Action::Notify {
            queue_url: "https://queue.example/replies".to_string(),
            response: SqsResponse { status_code: 200, body: "Success".to_string() },
        }
    );
    assert_eq!(run.stage(), Stage::Notified);
    assert!(run.is_over());
    assert_eq!(run.request, request);
}

#[test]
fn a_failing_model_is_reported_and_nothing_is_written() {
    let config = settings();
    let request = page_request();
    let (run, _) = Run::start(request.clone());
    let (run, _) = run.step(Event::PageFetched { body: PAGE.to_string() }, &config);
    let (run, action) = run.step(failed("connection reset"), &config);
    match &action {
        Action::Notify { response, .. } => {
            assert_eq!(response.status_code, 500);
            assert!(response.body.contains("Error getting response from OpenAI: connection reset"));
        }
        other => panic!("expected a report, got {:?}", other),
    }
    assert_eq!(
        action,
        failure(
            &request,
            "Error parsing recipe: Error getting response from OpenAI: connection reset"
        )
    );
    assert_eq!(run.stage(), Stage::Failed);
    assert!(run.is_over());
    let (run, action) = run.step(Event::Stored, &config);
    assert_eq!(action, Action::Rest);
    assert_eq!(run.stage(), Stage::Failed);
}

#[test]
fn two_failing_pictures_leave_the_placeholder() {
    let config = settings();
    let run = run_to_imaging(page_request(), pie());
    let (run, action) = run.step(failed("content policy"), &config);
    assert_eq!(action, Action::GenerateImage { prompt: "A realistic photo of Pie".to_string() });
    assert_eq!(run.stage(), Stage::Imaging);
    let (run, action) = run.step(failed("server error"), &config);
    let item = match action {
        Action::Store { item } => item,
        other => panic!("expected a record, got {:?}", other),
    };
    assert_eq!(text_of(&item, "image"), PLACEHOLDER_IMAGE);
    assert_eq!(text_of(&item, "uuid"), "https://example.com/recipe");
    assert_eq!(run.stage(), Stage::Persisting);
    let (run, action) = run.step(Event::Stored, &config);
    match action {
        Action::Notify { response, .. } => {
            assert_eq!(response, SqsResponse { status_code: 200, body: "Success".to_string() })
        }
        other => panic!("expected a report, got {:?}", other),
    }
    assert_eq!(run.stage(), Stage::Notified);
}

#[test]
fn the_second_picture_request_can_succeed() {
    let config = settings();
    let run = run_to_imaging(page_request(), pie());
    let (run, _) = run.step(failed("content policy"), &config);
    let (run, action) =
        run.step(Event::ImageGenerated { url: "https://images.example/2.png".to_string() }, &config);
    assert_eq!(action, Action::DownloadImage { url: "https://images.example/2.png".to_string() });
    assert_eq!(run.stage(), Stage::Imaging);
}

#[test]
fn a_failing_download_leaves_the_placeholder() {
    let config = settings();
    let run = run_to_imaging(page_request(), pie());
    let (run, _) =
        run.step(Event::ImageGenerated { url: "https://images.example/1.png".to_string() }, &config);
    let (run, action) = run.step(failed("gone"), &config);
    match action {
        Action::Store { item } => assert_eq!(text_of(&item, "image"), PLACEHOLDER_IMAGE),
        other => panic!("expected a record, got {:?}", other),
    }
    assert_eq!(run.stage(), Stage::Persisting);
}

#[test]
fn a_failing_upload_leaves_the_placeholder() {
    let config = settings();
    let run = run_to_imaging(page_request(), pie());
    let (run, _) =
        run.step(Event::ImageGenerated { url: "https://images.example/1.png".to_string() }, &config);
    let (run, action) = run.step(Event::ImageDownloaded { bytes: vec![1, 2, 3] }, &config);
    match (&run.phase, &action) {
        (Phase::AwaitUpload { file_name, .. }, Action::UploadImage { file_name: sent, bytes }) => {
            assert_eq!(file_name, sent);
            assert_eq!(bytes, &vec![1, 2, 3]);
            assert_eq!(sent.len(), 40);
            assert!(sent.ends_with(".jpg"));
        }
        other => panic!("expected an upload, got {:?}", other),
    }
    let (run, action) = run.step(failed("access denied"), &config);
    match action {
        Action::Store { item } => assert_eq!(text_of(&item, "image"), PLACEHOLDER_IMAGE),
        other => panic!("expected a record, got {:?}", other),
    }
    assert_eq!(run.stage(), Stage::Persisting);
}

#[test]
fn a_page_is_fetched_and_nothing_else_is_asked() {
    let (run, action) = Run::start(page_request());
    assert_eq!(action, Action::FetchPage { url: "https://example.com/recipe".to_string() });
    assert_eq!(run.phase, Phase::AwaitPage);
}

#[test]
fn a_picture_is_read() {
    let request = picture_request("https://bucket.example/IMG_1476.png");
    let (run, action) = Run::start(request);
    assert_eq!(
        action,
        Action::ReadImage {
            request: TesseractRequest { url: "https://bucket.example/IMG_1476.png".to_string() }
        }
    );
    assert_eq!(run.phase, Phase::AwaitText);
    let (run, action) = run.step(
        Event::ImageRead { response: TesseractResponse { contents: "Pie\nflour".to_string() } },
        &settings(),
    );
    assert_eq!(action, Action::Complete { message: compose_message("Pie\nflour") });
    assert_eq!(run.stage(), Stage::Extracting);
}

#[test]
fn a_heic_picture_is_converted_before_it_is_read() {
    let request = picture_request("https://bucket.example/IMG_1476.heic");
    let (run, action) = Run::start(request);
    assert_eq!(
        action,
        Action::ConvertImage { job: ConversionJob::new("https://bucket.example/IMG_1476.heic") }
    );
    assert_eq!(run.phase, Phase::AwaitConversion);
    let (run, action) = run.step(
        Event::ImageConverted {
            tasks: vec![
                finished("convert_heic", &[]),
                finished("to_png", &["https://work.example/IMG_1476.png"]),
                finished(
                    "recipe-image",
                    &["https://converted.example/IMG_1476.png", "https://converted.example/2.png"],
                ),
            ],
        },
        &settings(),
    );
    assert_eq!(
        action,
        Action::ReadImage {
            request: TesseractRequest { url: "https://converted.example/IMG_1476.png".to_string() }
        }
    );
    assert_eq!(run.phase, Phase::AwaitText);
}

#[test]
fn a_text_goes_to_the_model_as_it_stands() {
    let text = "Pie.   Take flour;\n bake.";
    let (run, action) = Run::start(text_request(text));
    assert_eq!(action, Action::Complete { message: compose_message(text) });
    assert_eq!(run.phase, Phase::AwaitCompletion);
}

#[test]
fn a_picture_request_is_stored_under_its_own_key() {
    let config = settings();
    let (run, _) = Run::start(picture_request("https://bucket.example/IMG_1476.png"));
    let (run, _) = run.step(
        Event::ImageRead { response: TesseractResponse { contents: "Pie".to_string() } },
        &config,
    );
    let (run, _) = run.step(Event::Completed { content: Some(REPLY.to_string()) }, &config);
    let (run, _) = run.step(Event::RecipeDecoded { recipe: pie() }, &config);
    let (run, _) = run.step(failed("no"), &config);
    let (_, action) = run.step(failed("no"), &config);
    match action {
        Action::Store { item } => {
            assert_eq!(text_of(&item, "uuid"), "448b5102-ca04-4451-a18e-692acbeded01");
            assert_eq!(text_of(&item, "credit"), "grandma");
        }
        other => panic!("expected a record, got {:?}", other),
    }
}

#[test]
fn a_request_without_a_key_fails_at_once() {
    let mut request = text_request("Pie");
    request.uuid = None;
    let (run, action) = Run::start(request.clone());
    assert_eq!(action, failure(&request, "Request has no uuid"));
    assert_eq!(run.stage(), Stage::Failed);
}

#[test]
fn a_failing_fetch_is_reported_in_its_own_words() {
    let request = page_request();
    let (run, _) = Run::start(request.clone());
    let (run, action) = run.step(failed("Error reading URL: dns error"), &settings());
    assert_eq!(action, failure(&request, "Error reading URL: dns error"));
    assert_eq!(run.stage(), Stage::Failed);
}

#[test]
fn an_empty_page_is_a_failure() {
    let request = page_request();
    let (run, _) = Run::start(request.clone());
    let (_, action) = run.step(Event::PageFetched { body: String::new() }, &settings());
    assert_eq!(action, failure(&request, "Error reading URL contents: empty body"));
}

#[test]
fn a_failing_conversion_and_a_failing_reading_are_reported() {
    let request = picture_request("https://bucket.example/a.heic");
    let (run, _) = Run::start(request.clone());
    let (_, action) = run.step(failed("job refused"), &settings());
    assert_eq!(action, failure(&request, "job refused"));

    let request = picture_request("https://bucket.example/a.png");
    let (run, _) = Run::start(request.clone());
    let (_, action) = run.step(failed("expected value at line 1 column 1"), &settings());
    assert_eq!(action, failure(&request, "expected value at line 1 column 1"));
}

#[test]
fn a_reply_without_content_is_reported() {
    let request = text_request("Pie");
    let (run, _) = Run::start(request.clone());
    let (_, action) = run.step(Event::Completed { content: None }, &settings());
    assert_eq!(action, failure(&request, "Error parsing recipe: Could not get message content"));
}

#[test]
fn a_reply_without_an_object_is_reported() {
    let request = text_request("Pie");
    let (run, _) = Run::start(request.clone());
    let (_, action) =
        run.step(Event::Completed { content: Some("Sorry, no.".to_string()) }, &settings());
    assert_eq!(action, failure(&request, "Error parsing recipe: Error parsing recipe contents!"));
}

#[test]
fn a_span_that_does_not_decode_is_reported() {
    let request = text_request("Pie");
    let (run, _) = Run::start(request.clone());
    let (run, _) = run.step(Event::Completed { content: Some("{\"a\":1}".to_string()) }, &settings());
    let (_, action) = run.step(failed("missing field `name`"), &settings());
    assert_eq!(
        action,
        failure(&request, "Error parsing recipe: Error parsing JSON missing field `name`")
    );
}

#[test]
fn a_recipe_without_ingredients_is_reported() {
    let request = text_request("Pie");
    let (run, _) = Run::start(request.clone());
    let (run, _) = run.step(Event::Completed { content: Some(REPLY.to_string()) }, &settings());
    let mut bare = pie();
    bare.ingredients.clear();
    let (_, action) = run.step(Event::RecipeDecoded { recipe: bare }, &settings());
    assert_eq!(
        action,
        failure(&request, &format!("Error parsing recipe: Error parsing JSON {}", INCOMPLETE))
    );
}

#[test]
fn a_failing_write_is_reported() {
    let config = settings();
    let request = page_request();
    let run = run_to_imaging(request.clone(), pie());
    let (run, _) = run.step(failed("no"), &config);
    let (run, _) = run.step(failed("no"), &config);
    let (run, action) = run.step(failed("ProvisionedThroughputExceededException"), &config);
    assert_eq!(action, failure(&request, "Failed! ProvisionedThroughputExceededException"));
    assert_eq!(run.stage(), Stage::Failed);
}

#[test]
fn an_answer_of_another_kind_counts_as_a_failure() {
    let request = page_request();
    let (run, _) = Run::start(request.clone());
    let (_, action) = run.step(Event::Stored, &settings());
    assert_eq!(action, failure(&request, "Unexpected reply"));
}

#[test]
fn the_same_page_twice_leaves_the_second_record() {
    let config = settings();
    let mut table: HashMap<String, Item> = HashMap::new();
    let mut second = pie();
    second.name = "Apple Pie".to_string();
    second.ingredients = vec!["flour".to_string(), "apples, peeled".to_string()];
    let mut written: Vec<Item> = Vec::new();
    for recipe in vec![pie(), second] {
        let run = run_to_imaging(page_request(), recipe);
        let (run, _) = run.step(failed("no"), &config);
        let (_, action) = run.step(failed("no"), &config);
        match action {
            Action::Store { item } => {
                table.insert(text_of(&item, "uuid"), item.clone());
                written.push(item);
            }
            other => panic!("expected a record, got {:?}", other),
        }
    }
    assert_ne!(written[0], written[1]);
    assert_eq!(table.len(), 1);
    let kept = &table["https://example.com/recipe"];
    assert_eq!(kept, &written[1]);
    let read = StoredRecipe::from(kept);
    assert_eq!(read.name, "Apple Pie");
    assert_eq!(read.ingredients, vec!["flour".to_string(), "apples, peeled".to_string()]);
    assert_eq!(read.uuid, "https://example.com/recipe");
}

#[test]
fn each_failure_has_its_report() {
    assert_eq!(
        PipelineError::Resolution("Error reading URL: dns error".to_string()).description(),
        "Error reading URL: dns error"
    );
    assert_eq!(
        PipelineError::Extraction(ExtractionError::NoContent).description(),
        "Error parsing recipe: Could not get message content"
    );
    assert_eq!(
        PipelineError::Extraction(ExtractionError::Transport("503".to_string())).description(),
        "Error parsing recipe: Error getting response from OpenAI: 503"
    );
    assert_eq!(
        PipelineError::Store("throttled".to_string()).description(),
        "Failed! throttled"
    );
}

#[test]
fn a_report_is_made_of_what_the_work_came_to() {
    assert_eq!(
        SqsResponse::new(Ok(SuccessResponse { body: "Success".to_string() })),
        SqsResponse { status_code: 200, body: "Success".to_string() }
    );
    let failure = FailureResponse { body: "Table Name Not Set".to_string() };
    assert_eq!(failure.message(), "Table Name Not Set");
    assert_eq!(
        SqsResponse::new(Err(failure)),
        SqsResponse { status_code: 500, body: "Table Name Not Set".to_string() }
    );
}

#[test]
fn a_conversion_without_a_converted_picture_is_a_failure() {
    let request = picture_request("https://bucket.example/a.heic");
    for tasks in [
        Vec::new(),
        vec![finished("to_png", &["https://work.example/a.png"])],
        vec![finished("recipe-image", &[])],
        vec![finished("recipe-image", &[]), finished("recipe-image", &["https://late.example"])],
    ] {
        let (run, _) = Run::start(request.clone());
        let (run, action) = run.step(Event::ImageConverted { tasks }, &settings());
        assert_eq!(action, failure(&request, "Error converting image: no converted picture"));
        assert_eq!(run.stage(), Stage::Failed);
    }
}

#[test]
fn the_first_picture_ends_with_the_summary_as_prompt() {
    let mut recipe = pie();
    recipe.summary = "a warm apple pie".to_string();
    let config = settings();
    let (run, _) = Run::start(text_request("Pie"));
    let (run, _) = run.step(Event::Completed { content: Some(REPLY.to_string()) }, &config);
    let (_, action) = run.step(Event::RecipeDecoded { recipe }, &config);
    assert_eq!(action, Action::GenerateImage { prompt: "a warm apple pie".to_string() });
}
