use distropack_cli::error::{rejection_message, Error, Operation, Stage};

fn lines(messages: &[&str]) -> Vec<String> {
    messages.iter().map(|message| message.to_string()).collect()
}

#[test]
fn missing_token_says_how_to_set_one() {
    assert_eq!(
        Error::NotConfigured.messages(),
        lines(&[
            "API token not set. Use 'distropack-cli config set-token <token>' or set DISTROPACK_API_TOKEN environment variable"
        ])
    );
}

#[test]
fn missing_file_names_the_path() {
    let error = Error::FileNotFound { path: "dist/file.bin".to_string() };
    assert_eq!(error.messages(), lines(&["File not found: dist/file.bin"]));
}

#[test]
fn unreadable_file_names_path_and_cause() {
    let error = Error::Io { path: "dist/file.bin".to_string(), detail: "permission denied".to_string() };
    assert_eq!(
        error.messages(),
        lines(&["Failed to read file: dist/file.bin", "permission denied"])
    );
}

#[test]
fn path_without_file_name_is_named_invalid() {
    assert_eq!(Error::InvalidFileName.messages(), lines(&["Invalid file name"]));
}

#[test]
fn build_without_jobs_says_so() {
    assert_eq!(Error::NoJobsCreated.messages(), lines(&["No build jobs were created"]));
}

#[test]
fn upload_that_could_not_be_sent() {
    let error = Error::Transport {
        operation: Operation::Upload,
        stage: Stage::Send,
        detail: "connection refused".to_string(),
    };
    assert_eq!(error.messages(), lines(&["Failed to send upload request", "connection refused"]));
}

#[test]
fn build_request_that_could_not_be_sent() {
    let error = Error::Transport {
        operation: Operation::Build,
        stage: Stage::Send,
        detail: "timed out".to_string(),
    };
    assert_eq!(
        error.messages(),
        lines(&["Failed to trigger build", "Failed to send build request", "timed out"])
    );
}

#[test]
fn build_response_that_could_not_be_decoded() {
    let error = Error::Transport {
        operation: Operation::Build,
        stage: Stage::Decode,
        detail: "missing field `jobIds`".to_string(),
    };
    assert_eq!(
        error.messages(),
        lines(&[
            "Failed to trigger build",
            "Failed to parse build response",
            "missing field `jobIds`"
        ])
    );
}

#[test]
fn status_query_that_could_not_be_sent() {
    let error = Error::Transport {
        operation: Operation::Status,
        stage: Stage::Send,
        detail: "dns error".to_string(),
    };
    assert_eq!(
        error.messages(),
        lines(&["Failed to check build status", "Failed to check build status", "dns error"])
    );
}

#[test]
fn status_response_that_could_not_be_decoded() {
    let error = Error::Transport {
        operation: Operation::Status,
        stage: Stage::Decode,
        detail: "EOF".to_string(),
    };
    assert_eq!(
        error.messages(),
        lines(&["Failed to check build status", "Failed to parse status response", "EOF"])
    );
}

#[test]
fn upload_response_that_could_not_be_decoded() {
    let error = Error::Transport {
        operation: Operation::Upload,
        stage: Stage::Decode,
        detail: "EOF".to_string(),
    };
    assert_eq!(error.messages(), lines(&["Failed to parse upload response", "EOF"]));
}

#[test]
fn rejected_upload_shows_status_and_body() {
    let error = Error::RemoteRejected {
        operation: Operation::Upload,
        status: 404,
        body: "no such package".to_string(),
    };
    assert_eq!(
        error.messages(),
        lines(&["Upload failed with status 404 Not Found: no such package"])
    );
}

#[test]
fn rejected_build_shows_status_and_body() {
    let error = Error::RemoteRejected {
        operation: Operation::Build,
        status: 500,
        body: "boom".to_string(),
    };
    assert_eq!(
        error.messages(),
        lines(&[
            "Failed to trigger build",
            "Build request failed with status 500 Internal Server Error: boom"
        ])
    );
}

#[test]
fn rejected_status_query_shows_status_and_body() {
    let error = Error::RemoteRejected {
        operation: Operation::Status,
        status: 401,
        body: String::new(),
    };
    assert_eq!(
        error.messages(),
        lines(&[
            "Failed to check build status",
            "Status check failed with status 401 Unauthorized: "
        ])
    );
}

#[test]
fn status_without_a_reason_phrase() {
    let error = Error::RemoteRejected {
        operation: Operation::Upload,
        status: 599,
        body: "x".to_string(),
    };
    assert_eq!(
        error.messages(),
        lines(&["Upload failed with status 599 <unknown status code>: x"])
    );
}

#[test]
fn number_that_is_no_status_code_is_written_in_decimal() {
    for (status, written) in [(0u16, "0"), (99, "99"), (1000, "1000"), (u16::MAX, "65535")] {
        let error = Error::RemoteRejected {
            operation: Operation::Upload,
            status,
            body: "x".to_string(),
        };
        assert_eq!(
            error.messages(),
            vec![format!("Upload failed with status {}: x", written)]
        );
    }
}

#[test]
fn rejection_message_for_each_operation() {
    assert_eq!(
        rejection_message(Operation::Upload, "418 I'm a teapot", "short and stout"),
        "Upload failed with status 418 I'm a teapot: short and stout"
    );
    assert_eq!(
        rejection_message(Operation::Build, "400 Bad Request", ""),
        "Build request failed with status 400 Bad Request: "
    );
    assert_eq!(
        rejection_message(Operation::Status, "502 Bad Gateway", "<html>"),
        "Status check failed with status 502 Bad Gateway: <html>"
    );
}
