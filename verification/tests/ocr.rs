use recipe_pipeline::model::{ContentType, URLRequest, WorkerRequest};
use recipe_pipeline::ocr::{
    converted_address, is_heic_url, ConversionJob, ConvertTask, ExportTask, FinishedTask,
    ImportTask,
};

#[test]
fn a_heic_picture_is_known_by_its_ending() {
    assert!(is_heic_url("https://bucket.example/IMG_1476.heic"));
    assert!(is_heic_url(".heic"));
    assert!(!is_heic_url("https://bucket.example/IMG_1476.png"));
    assert!(!is_heic_url("https://bucket.example/IMG_1476.HEIC"));
    assert!(!is_heic_url("https://bucket.example/IMG_1476.heic?size=2"));
    assert!(!is_heic_url("heic"));
    assert!(!is_heic_url(""));
}

#[test]
fn the_conversion_job_turns_heic_into_png() {
    assert_eq!(
        ConversionJob::new("https://bucket.example/IMG_1723.heic"),
        ConversionJob {
            import: ImportTask {
                name: "convert_heic".to_string(),
                operation: "import/url".to_string(),
                url: "https://bucket.example/IMG_1723.heic".to_string(),
            },
            convert: ConvertTask {
                name: "to_png".to_string(),
                operation: "convert".to_string(),
                input: "convert_heic".to_string(),
                input_format: "heic".to_string(),
                output_format: "png".to_string(),
                engine: "imagemagick".to_string(),
                fit: "max".to_string(),
                strip: false,
                quality: 75,
            },
            export: ExportTask {
                name: "recipe-image".to_string(),
                operation: "export/url".to_string(),
                input: "to_png".to_string(),
                inline: false,
                archive_multiple_files: false,
            },
            tag: "jobbuilder".to_string(),
        }
    );
}

#[test]
fn each_task_of_the_job_is_fed_by_the_one_before() {
    let job = ConversionJob::new("https://bucket.example/IMG_1723.heic");
    assert_eq!(job.convert.input, job.import.name);
    assert_eq!(job.export.input, job.convert.name);
}

#[test]
fn the_converted_picture_is_the_first_file_of_the_publishing_task() {
    let task = |name: &str, files: &[&str]| FinishedTask {
        name: name.to_string(),
        files: files.iter().map(|file| file.to_string()).collect(),
    };
    assert_eq!(
        converted_address(&vec![
            task("convert_heic", &["a"]),
            task("to_png", &["b"]),
            task("recipe-image", &["c", "d"]),
        ]),
        Some("c".to_string())
    );
    assert_eq!(converted_address(&vec![task("recipe-image", &["c"])]), Some("c".to_string()));
    assert_eq!(converted_address(&Vec::new()), None);
    assert_eq!(converted_address(&vec![task("to_png", &["b"])]), None);
    assert_eq!(
        converted_address(&vec![task("recipe-image", &[]), task("recipe-image", &["late"])]),
        None
    );
}

#[test]
fn a_page_is_stored_under_its_address() {
    let request = URLRequest {
        url: "batman.com".to_string(),
        content_type: ContentType::URL,
        credit: None,
        uuid: Some("ignored".to_string()),
    };
    assert_eq!(request.identity(), Some("batman.com".to_string()));
}

#[test]
fn a_picture_and_a_text_are_stored_under_their_own_key() {
    let mut request = URLRequest {
        url: "batman.com".to_string(),
        content_type: ContentType::IMAGE,
        credit: None,
        uuid: Some("897399ef-2d4b-40a5-8d72-704c675fea24".to_string()),
    };
    assert_eq!(request.identity(), Some("897399ef-2d4b-40a5-8d72-704c675fea24".to_string()));
    request.content_type = ContentType::BULK;
    assert_eq!(request.identity(), Some("897399ef-2d4b-40a5-8d72-704c675fea24".to_string()));
    request.uuid = None;
    assert_eq!(request.identity(), None);
}

#[test]
fn the_worker_gets_the_request_and_the_queue() {
    let request = URLRequest {
        url: "batman.com".to_string(),
        content_type: ContentType::IMAGE,
        credit: Some("robin".to_string()),
        uuid: Some("k".to_string()),
    };
    let message = WorkerRequest::new(request, "https://queue.example/1".to_string());
    assert_eq!(
        message,
        WorkerRequest {
            url: "batman.com".to_string(),
            content_type: ContentType::IMAGE,
            credit: Some("robin".to_string()),
            uuid: Some("k".to_string()),
            sqs_url: "https://queue.example/1".to_string(),
        }
    );
    assert_eq!(message.identity(), Some("k".to_string()));
}
