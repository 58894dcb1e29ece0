use nano::command_responder::StringContent;

#[test]
fn string_content_keeps_its_text() {
    let reply = StringContent::new("Weather could not be found :(");
    assert_eq!(reply.response(), "Weather could not be found :(");
    assert_eq!(StringContent::new("").response(), "");
    assert_eq!(StringContent::default().response(), "");
}
