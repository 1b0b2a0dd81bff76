use femail::error::Error;
use femail::gmail::{Label, Message};
use femail::render::{
    render_auth_prompt, render_banner, render_help, render_input_failure, render_labels,
    render_labels_failure, render_labels_notice, render_messages, render_messages_failure,
    render_messages_notice, render_no_token, render_preview, render_read_failure,
    render_read_notice, render_save_failure, render_saved, PREVIEW_LIMIT,
};

fn message(subject: &str, from: &str, snippet: &str) -> Message {
    Message {
        id: "m1".to_string(),
        subject: subject.to_string(),
        from: from.to_string(),
        snippet: snippet.to_string(),
    }
}

#[test]
fn preview_limit_is_50_characters() {
    assert_eq!(PREVIEW_LIMIT, 50);
}

#[test]
fn preview_of_exactly_50_characters_is_the_snippet() {
    let snippet = "a".repeat(50);
    assert_eq!(render_preview(&snippet), snippet);
}

#[test]
fn preview_of_51_characters_is_the_first_50_and_dots() {
    let snippet = format!("{}b", "a".repeat(50));
    assert_eq!(render_preview(&snippet), format!("{}...", "a".repeat(50)));
}

#[test]
fn preview_of_0_to_49_characters_is_the_snippet() {
    for length in 0..50 {
        let snippet = "a".repeat(length);
        assert_eq!(render_preview(&snippet), snippet);
    }
}

#[test]
fn preview_of_more_characters_is_the_first_50_and_dots() {
    for length in [52, 60, 100, 1000] {
        let snippet: String = "0123456789".chars().cycle().take(length).collect();
        let expected = "01234567890123456789012345678901234567890123456789...";
        assert_eq!(render_preview(&snippet), expected);
    }
}

#[test]
fn preview_counts_characters_of_any_width() {
    let snippet = "日本語".repeat(17);
    assert_eq!(snippet.chars().count(), 51);
    let expected: String = snippet.chars().take(50).collect();
    assert_eq!(render_preview(&snippet), format!("{}...", expected));
    let whole = "é".repeat(50);
    assert_eq!(whole.len(), 100);
    assert_eq!(render_preview(&whole), whole);
}

#[test]
fn banner_has_three_lines() {
    assert_eq!(
        render_banner(),
        vec!["Femail - Gmail Filesystem Browser", "Now with real Gmail API integration!", ""]
    );
}

#[test]
fn help_names_the_four_commands() {
    let help = render_help();
    assert_eq!(help.len(), 13);
    let commands =
        ["femail auth", "femail labels", "femail messages <label>", "femail read <label> <id>"];
    for command in commands {
        assert!(help.iter().any(|line| line.contains(command)));
    }
}

#[test]
fn auth_prompt_ends_with_the_question() {
    let prompt = render_auth_prompt();
    assert_eq!(prompt.len(), 13);
    assert_eq!(prompt[0], "Setting up Gmail authentication...");
    assert_eq!(prompt[12], "Enter your access token:");
}

#[test]
fn auth_outcomes() {
    assert_eq!(render_no_token(), vec!["❌ No token provided."]);
    assert_eq!(
        render_saved(),
        vec![
            "✅ Access token saved successfully!",
            "You can now use other commands like 'femail labels'",
            "",
            "Note: This token will expire after 1 hour. You'll need to",
            "repeat the auth process when it expires.",
        ]
    );
    assert_eq!(
        render_save_failure(&Error::Io("disk full".to_string())),
        vec!["❌ Error saving token: disk full"]
    );
    assert_eq!(render_input_failure("closed"), vec!["❌ Error reading input: closed"]);
}

#[test]
fn notices_name_what_is_fetched() {
    assert_eq!(render_labels_notice(), vec!["Fetching Gmail labels..."]);
    assert_eq!(render_messages_notice("INBOX"), vec!["Fetching messages from 'INBOX'..."]);
    assert_eq!(render_read_notice("INBOX", "m1"), vec!["Fetching message 'm1' from 'INBOX'..."]);
}

#[test]
fn labels_are_lines_under_a_heading() {
    assert_eq!(render_labels(&vec![]), vec!["Available labels (directories):"]);
    let labels = vec![
        Label { id: "Label_1".to_string(), name: "Work".to_string() },
        Label { id: "INBOX".to_string(), name: "INBOX".to_string() },
    ];
    assert_eq!(
        render_labels(&labels),
        vec!["Available labels (directories):", "  📁 Work (Label_1)", "  📁 INBOX (INBOX)"]
    );
}

#[test]
fn no_messages_is_a_notice_without_a_heading() {
    assert_eq!(render_messages("INBOX", &vec![]), vec!["No messages found in 'INBOX'"]);
}

#[test]
fn messages_are_lines_under_a_heading() {
    let messages = vec![
        message("Hello", "ann@example.com", "Hi there"),
        message("", "", ""),
        message("Long", "bob@example.com", &"x".repeat(51)),
    ];
    assert_eq!(
        render_messages("Work", &messages),
        vec![
            "Messages in 'Work':".to_string(),
            "  📧 Hello (from: ann@example.com) - Hi there".to_string(),
            "  📧  (from: ) - ".to_string(),
            format!("  📧 Long (from: bob@example.com) - {}...", "x".repeat(50)),
        ]
    );
}

#[test]
fn failures_give_the_error_and_a_hint() {
    let error = Error::Api { status: Some(404), detail: "Not Found".to_string() };
    assert_eq!(
        render_labels_failure(&error),
        vec![
            "❌ Error fetching labels: Gmail API error (status 404): Not Found",
            "Try running 'femail auth' first if you haven't authenticated.",
        ]
    );
    assert_eq!(
        render_messages_failure("Work", &error),
        vec![
            "❌ Error fetching messages: Gmail API error (status 404): Not Found",
            "Make sure the label 'Work' exists and you're authenticated.",
        ]
    );
    assert_eq!(
        render_read_failure("INBOX", "xyz", &error),
        vec![
            "❌ Error reading message: Gmail API error (status 404): Not Found",
            "Make sure the message ID 'xyz' in 'INBOX' is correct and accessible.",
        ]
    );
}

#[test]
fn read_failure_names_message_and_label_whatever_they_are() {
    let errors = [
        Error::Environment,
        Error::NotAuthenticated,
        Error::Io("denied".to_string()),
        Error::Format("bad".to_string()),
        Error::Api { status: None, detail: "timed out".to_string() },
        Error::Api { status: Some(404), detail: String::new() },
    ];
    let names = [("INBOX", "xyz"), ("My Label", "18c2f0a1"), ("é📁", "'"), ("", "")];
    for error in &errors {
        for (label, message_id) in names {
            let lines = render_read_failure(label, message_id, error);
            assert_eq!(lines.len(), 2);
            assert_eq!(lines[0], format!("❌ Error reading message: {}", error.message()));
            assert_eq!(
                lines[1],
                format!(
                    "Make sure the message ID '{}' in '{}' is correct and accessible.",
                    message_id, label
                )
            );
            assert!(lines[1].contains(label));
            assert!(lines[1].contains(message_id));
        }
    }
}
