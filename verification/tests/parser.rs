use trampantojo::chat::{parse_message, ExtractedItem};

#[test]
fn test_parse_message() {
    let text = "Sospechoso: http://phishing-site.com/login y la IP es 192.168.1.1. El archivo tiene hash d41d8cd98f00b204e9800998ecf8427e.";
    let items = parse_message(text);

    assert_eq!(items.len(), 3);
    assert!(items.contains(&ExtractedItem::Url("http://phishing-site.com/login".to_string())));
    assert!(items.contains(&ExtractedItem::Ip("192.168.1.1".to_string())));
    assert!(items.contains(&ExtractedItem::Hash("d41d8cd98f00b204e9800998ecf8427e".to_string())));
}

#[test]
fn parse_message_orders_kinds() {
    let items = parse_message("10.0.0.1 www.malo.cl");
    assert_eq!(
        items,
        vec![
            ExtractedItem::Url("www.malo.cl".to_string()),
            ExtractedItem::Ip("10.0.0.1".to_string()),
        ]
    );
}

#[test]
fn parse_message_without_indicators() {
    assert!(parse_message("hola, ¿cómo estás?").is_empty());
}
