use recipe_pipeline::batch::Batch;
use recipe_pipeline::model::{ContentType, Recipe, SqsResponse, WorkerRequest};
use recipe_pipeline::pipeline::{Action, Event};
use recipe_pipeline::settings::Config;

fn batch_settings() -> Config {
    Config {
        api_key: "key".to_string(),
        table_name: "recipes".to_string(),
        bucket_name: "pictures".to_string(),
        region: "us-east-1".to_string(),
        conversion_key: "conversion key".to_string(),
    }
}

fn text_item(text: &str, queue: &str) -> WorkerRequest {
    WorkerRequest {
        url: text.to_string(),
        content_type: ContentType::BULK,
        credit: None,
        uuid: Some(format!("key-of-{}", queue)),
        sqs_url: queue.to_string(),
    }
}

fn soup() -> Recipe {
    Recipe {
        name: "Soup".to_string(),
        ingredients: vec!["water".to_string()],
        instructions: vec!["boil".to_string()],
        notes: String::new(),
        summary: "a soup".to_string(),
    }
}

/// The world outside, scripted: the model fails for a text that holds
/// "model down", the table refuses a recipe for a queue that holds
/// "throttled", and no picture can ever be generated.
fn answer(action: &Action) -> Event {
    match action {
        Action::Complete { message } if message.contains("model down") => {
            Event::Failed { reason: "503".to_string() }
        }
        Action::Complete { .. } => Event::Completed { content: Some("{\"name\":\"Soup\"}".to_string()) },
        Action::Decode { .. } => Event::RecipeDecoded { recipe: soup() },
        Action::GenerateImage { .. } => Event::Failed { reason: "no pictures today".to_string() },
        Action::Store { item } => {
            let key = format!("{:?}", item.get("uuid"));
            if key.contains("throttled") {
                Event::Failed { reason: "throttled".to_string() }
            } else {
                Event::Stored
            }
        }
        Action::Notify { .. } => Event::Sent,
        other => panic!("nothing asks for {:?} here", other),
    }
}

/// Works a batch off and returns the reports in the order they were sent.
fn reports_of(requests: Vec<WorkerRequest>) -> Vec<(String, SqsResponse)> {
    let mut sent = Vec::new();
    let (mut batch, mut action) = Batch::start(batch_settings(), requests);
    let mut steps = 0;
    while action != Action::Rest {
        if let Action::Notify { queue_url, response } = &action {
            sent.push((queue_url.clone(), response.clone()));
        }
        let event = answer(&action);
        let (next_batch, next_action) = batch.step(event);
        batch = next_batch;
        action = next_action;
        steps += 1;
        assert!(steps < 1000);
    }
    assert!(batch.is_resting());
    sent
}

#[test]
fn every_request_of_a_batch_is_reported_once() {
    let requests = vec![
        text_item("first", "q1"),
        text_item("model down", "q2"),
        text_item("third", "q3-throttled"),
        text_item("fourth", "q4"),
        text_item("fifth", "q5"),
    ];
    let sent = reports_of(requests);
    assert_eq!(sent.len(), 5);
    let queues: Vec<&str> = sent.iter().map(|(queue, _)| queue.as_str()).collect();
    assert_eq!(queues, vec!["q1", "q2", "q3-throttled", "q4", "q5"]);
    let failures: Vec<&str> = sent
        .iter()
        .filter(|(_, response)| response.status_code != 200)
        .map(|(queue, _)| queue.as_str())
        .collect();
    assert_eq!(failures, vec!["q2", "q3-throttled"]);
    assert_eq!(sent.iter().filter(|(_, response)| response.status_code == 200).count(), 3);
    assert_eq!(sent[0].1, SqsResponse { status_code: 200, body: "Success".to_string() });
    assert_eq!(
        sent[1].1,
        SqsResponse {
            status_code: 500,
            body: "Error parsing recipe: Error getting response from OpenAI: 503".to_string()
        }
    );
    assert_eq!(sent[2].1, SqsResponse { status_code: 500, body: "Failed! throttled".to_string() });
}

#[test]
fn an_empty_batch_rests_at_once() {
    let (batch, action) = Batch::start(batch_settings(), Vec::new());
    assert_eq!(action, Action::Rest);
    assert!(batch.is_resting());
    let (batch, action) = batch.step(Event::Sent);
    assert_eq!(action, Action::Rest);
    assert!(batch.is_resting());
}

#[test]
fn a_batch_of_failures_reports_each() {
    let mut keyless = text_item("no key", "q2");
    keyless.uuid = None;
    let sent = reports_of(vec![text_item("model down", "q1"), keyless, text_item("model down", "q3")]);
    assert_eq!(sent.len(), 3);
    assert!(sent.iter().all(|(_, response)| response.status_code == 500));
    assert_eq!(sent[1].1.body, "Request has no uuid");
}

#[test]
fn a_report_that_could_not_be_sent_does_not_stop_the_batch() {
    let (batch, action) = Batch::start(
        batch_settings(),
        vec![text_item("model down", "q1"), text_item("second", "q2")],
    );
    assert!(matches!(action, Action::Complete { .. }));
    let (batch, action) = batch.step(Event::Failed { reason: "503".to_string() });
    assert!(matches!(action, Action::Notify { .. }));
    let (batch, action) = batch.step(Event::Failed { reason: "queue deleted".to_string() });
    assert!(matches!(action, Action::Complete { .. }));
    assert_eq!(batch.pending.len(), 0);
    assert_eq!(batch.current.map(|run| run.request.sqs_url), Some("q2".to_string()));
}
