use traffic_gen::smtp::data_command;
use traffic_gen::smtp::ehlo_command;
use traffic_gen::smtp::end_of_data;
use traffic_gen::smtp::line_offers_starttls;
use traffic_gen::smtp::mail_from_command;
use traffic_gen::smtp::parse_reply_code;
use traffic_gen::smtp::quit_command;
use traffic_gen::smtp::rcpt_to_command;
use traffic_gen::smtp::reply_is_final;
use traffic_gen::smtp::reply_is_intermediate;
use traffic_gen::smtp::reply_is_positive;
use traffic_gen::smtp::starttls_command;

#[test]
fn reply_code_is_read_from_the_first_three_digits() {
    assert_eq!(parse_reply_code(&b"220 mail.example.com ready".to_vec()), Some(220));
    assert_eq!(parse_reply_code(&b"250-STARTTLS".to_vec()), Some(250));
    assert_eq!(parse_reply_code(&b"354".to_vec()), Some(354));
    assert_eq!(parse_reply_code(&b"5x0 nope".to_vec()), None);
    assert_eq!(parse_reply_code(&b"22".to_vec()), None);
    assert_eq!(parse_reply_code(&b"".to_vec()), None);
}

#[test]
fn continuation_marker_distinguishes_final_lines() {
    assert!(reply_is_final(&b"250 ok".to_vec()));
    assert!(reply_is_final(&b"250".to_vec()));
    assert!(!reply_is_final(&b"250-PIPELINING".to_vec()));
}

#[test]
fn code_classes() {
    assert!(reply_is_positive(250));
    assert!(reply_is_positive(200));
    assert!(!reply_is_positive(354));
    assert!(!reply_is_positive(199));
    assert!(reply_is_intermediate(354));
    assert!(!reply_is_intermediate(250));
}

#[test]
fn starttls_capability_is_recognised() {
    assert!(line_offers_starttls(&b"250-STARTTLS".to_vec()));
    assert!(line_offers_starttls(&b"250 STARTTLS".to_vec()));
    assert!(line_offers_starttls(&b"250-starttls".to_vec()));
    assert!(!line_offers_starttls(&b"250-PIPELINING".to_vec()));
    assert!(!line_offers_starttls(&b"500-STARTTLS".to_vec()));
    assert!(!line_offers_starttls(&b"250-STARTTLSX".to_vec()));
}

#[test]
fn command_lines_are_exact() {
    assert_eq!(ehlo_command("example.com"), "EHLO example.com\r\n");
    assert_eq!(mail_from_command("noreply@example.com"), "MAIL FROM:<noreply@example.com>\r\n");
    assert_eq!(rcpt_to_command("user-1@gmail.com.example.com"), "RCPT TO:<user-1@gmail.com.example.com>\r\n");
    assert_eq!(data_command(), "DATA\r\n");
    assert_eq!(end_of_data(), ".\r\n");
    assert_eq!(starttls_command(), "STARTTLS\r\n");
    assert_eq!(quit_command(), "QUIT\r\n");
}
