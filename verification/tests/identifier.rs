use notion_rainbow::link::extract_element_id_from_link;

#[test]
fn extracts_id_from_page_url() {
    let link = "https://www.notion.so/Some-Page-0123456789abcdef0123456789abcdef";
    assert_eq!(
        extract_element_id_from_link(link),
        Some("0123456789abcdef0123456789abcdef".to_string())
    );
}

#[test]
fn extracts_bare_id() {
    let id = "ABCDEF0123456789abcdef0123456789";
    assert_eq!(extract_element_id_from_link(id), Some(id.to_string()));
}

#[test]
fn extracts_first_thirty_two_digits_of_longer_run() {
    let link = "0123456789abcdef0123456789abcdef0";
    assert_eq!(
        extract_element_id_from_link(link),
        Some("0123456789abcdef0123456789abcdef".to_string())
    );
}

#[test]
fn extracts_earliest_of_two_ids() {
    let link = "x-aaaaaaaaaaaaaaaaaaaaaaaaaaaaaaaa-bbbbbbbbbbbbbbbbbbbbbbbbbbbbbbbb";
    assert_eq!(
        extract_element_id_from_link(link),
        Some("aaaaaaaaaaaaaaaaaaaaaaaaaaaaaaaa".to_string())
    );
}

#[test]
fn skips_run_broken_by_non_hex_character() {
    let link = "0123456789abcdefgfedcba9876543210fedcba9876543210";
    assert_eq!(
        extract_element_id_from_link(link),
        Some("fedcba9876543210fedcba9876543210".to_string())
    );
}

#[test]
fn rejects_link_without_id() {
    assert_eq!(extract_element_id_from_link("https://example.com/short"), None);
}

#[test]
fn rejects_run_of_thirty_one_digits() {
    assert_eq!(extract_element_id_from_link("0123456789abcdef0123456789abcde"), None);
}

#[test]
fn rejects_empty_link() {
    assert_eq!(extract_element_id_from_link(""), None);
}
