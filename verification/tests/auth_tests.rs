use mp3_downloader::auth::{
    derive_token, extract_auth_token, find_from, parameter_name, read_payload, token_from_items,
    AuthExtractionError, AuthToken, Item,
};

fn page(payload: &str) -> String {
    format!(
        "<html><head><script>var a = 1; var gC = JSON.parse('{}'); run(gC);</script></head></html>",
        payload
    )
}

fn token(name: &str, value: &str) -> Result<AuthToken, AuthExtractionError> {
    Ok(AuthToken { parameter_name: name.to_string(), value: value.to_string() })
}

const CODES: &str = "[94,118,116,78,72,87,88,59,87,126,118,105,93,123,85,77,61,123,83,95,78,131]";
const KEYS: &str = "[14,2,6,11,3,9,7,1,12,5,4,10,15,2,8,6,13,3,9,8,13,16]";

#[test]
fn documented_fixture_gives_the_documented_token() {
    let html = page(&format!("[{},1,{},0,\"x\",null,117]", CODES, KEYS));
    assert_eq!(extract_auth_token(&html), token("u", "uLYHx4FToXeloU3RJEEliN"));
}

#[test]
fn flag_zero_keeps_the_order_of_the_differences() {
    let html = page(&format!("[{},0,{},0,0,0,117]", CODES, KEYS));
    assert_eq!(extract_auth_token(&html), token("u", "NilEEJR3UoleXoTF4xHYLu"));
}

#[test]
fn extraction_is_repeatable() {
    let html = page(&format!("[{},1,{}]", CODES, KEYS));
    let first = extract_auth_token(&html);
    let second = extract_auth_token(&html);
    assert_eq!(first, second);
    assert_eq!(first, token("u", "uLYHx4FToXeloU3RJEEliN"));
}

#[test]
fn differences_pair_codes_with_keys_from_the_end() {
    let codes = vec![100, 100, 100];
    let keys = vec![1, 2, 3, 4];
    // 100 - 4, 100 - 3, 100 - 2
    assert_eq!(derive_token(&codes, 0, &keys), Ok("`ab".to_string()));
    assert_eq!(derive_token(&codes, 1, &keys), Ok("ba`".to_string()));
    assert_eq!(derive_token(&codes, -7, &keys), Ok("ba`".to_string()));
    assert_eq!(derive_token(&keys, 0, &codes), Err(AuthExtractionError));
}

#[test]
fn differences_are_taken_as_bytes() {
    // 65 + 256 and 65 - 256 are both the letter A; 233 is e with acute accent
    assert_eq!(
        derive_token(&vec![321, -191, 233], 0, &vec![0, 0, 0]),
        Ok("AA\u{e9}".to_string())
    );
    assert_eq!(derive_token(&vec![i64::MIN], 0, &vec![i64::MAX]), Ok("\u{1}".to_string()));
    assert_eq!(derive_token(&vec![i64::MAX], 0, &vec![i64::MIN]), Ok("\u{ff}".to_string()));
}

#[test]
fn token_is_cut_to_thirty_two_characters() {
    let codes: Vec<i64> = (0..40).map(|i| 65 + (i % 26)).collect();
    let keys: Vec<i64> = vec![0; 40];
    let forward = derive_token(&codes, 0, &keys).unwrap();
    assert_eq!(forward, "ABCDEFGHIJKLMNOPQRSTUVWXYZABCDEF");
    assert_eq!(forward.chars().count(), 32);
    let backward = derive_token(&codes, 1, &keys).unwrap();
    assert_eq!(backward, "NMLKJIHGFEDCBAZYXWVUTSRQPONMLKJI");
    assert_eq!(derive_token(&vec![], 1, &vec![]), Ok(String::new()));
}

#[test]
fn parameter_name_comes_from_the_seventh_element() {
    let html = page("[[66],0,[1],0,0,0,107]");
    assert_eq!(extract_auth_token(&html), token("k", "A"));
}

#[test]
fn parameter_name_defaults_to_u() {
    assert_eq!(extract_auth_token(&page("[[66],0,[1]]")), token("u", "A"));
    assert_eq!(extract_auth_token(&page("[[66],0,[1],0,0,0]")), token("u", "A"));
    assert_eq!(extract_auth_token(&page("[[66],0,[1],0,0,0,\"k\"]")), token("u", "A"));
    assert_eq!(extract_auth_token(&page("[[66],0,[1],0,0,0,[107]]")), token("u", "A"));
    assert_eq!(extract_auth_token(&page("[[66],0,[1],0,0,0,null]")), token("u", "A"));
    assert_eq!(extract_auth_token(&page("[[66],0,[1],0,0,0,128]")), token("u", "A"));
    assert_eq!(extract_auth_token(&page("[[66],0,[1],0,0,0,-1]")), token("u", "A"));
    assert_eq!(extract_auth_token(&page("[[66],0,[1],0,0,0,1.5]")), token("u", "A"));
}

#[test]
fn page_without_payload_fails() {
    assert_eq!(extract_auth_token(""), Err(AuthExtractionError));
    assert_eq!(extract_auth_token("<html></html>"), Err(AuthExtractionError));
    assert_eq!(extract_auth_token("JSON.parse('[[66],0,[1]]"), Err(AuthExtractionError));
    assert_eq!(extract_auth_token("JSON.parse(\"[[66],0,[1]]\")"), Err(AuthExtractionError));
}

#[test]
fn payload_of_the_wrong_shape_fails() {
    for payload in [
        "",
        "[]",
        "[[66],0]",
        "[66,0,[1]]",
        "[[66],[0],[1]]",
        "[[66],0,1]",
        "[[66],\"0\",[1]]",
        "[[66,67],0,[1]]",
        "[[66],0,[1]",
        "[[66],0,[1]] x",
        "[[66],0,[1],]",
        "[[66,],0,[1]]",
        "[[66 67],0,[1]]",
        "[[6.6],0,[1]]",
        "[[[66]],0,[1]]",
        "[[66],0,[\"1\"]]",
        "[[66],0,[1],\"open]",
        "[[99999999999999999999],0,[1]]",
        "{\"a\":[[66],0,[1]]}",
    ] {
        assert_eq!(extract_auth_token(&page(payload)), Err(AuthExtractionError), "{}", payload);
    }
}

#[test]
fn first_payload_on_the_page_is_the_one_read() {
    let html = "x JSON.parse('[[66],0,[1]]') y JSON.parse('[[67],0,[1]]') z";
    assert_eq!(extract_auth_token(html), token("u", "A"));
    let broken_first = "JSON.parse('nothing') JSON.parse('[[67],0,[1]]')";
    assert_eq!(extract_auth_token(broken_first), Err(AuthExtractionError));
}

#[test]
fn blanks_are_allowed_around_every_token() {
    let html = page(" [ [ 66 , 67 ] ,\t1 ,\n[ 1 , 2 ] , \"a,]b\\\"c\" , true , -3 , 107 ] \r\n");
    // 66 - 2 and 67 - 1, reversed
    assert_eq!(extract_auth_token(&html), token("k", "B@"));
}

#[test]
fn payload_items_are_read_by_kind() {
    let text: Vec<char> = "[[1,-2],3,[],\"s\",word,-9223372036854775808,9223372036854775808,-,1x]"
        .chars()
        .collect();
    assert_eq!(
        read_payload(&text),
        Some(vec![
            Item::Numbers(vec![1, -2]),
            Item::Number(3),
            Item::Numbers(vec![]),
            Item::Other,
            Item::Other,
            Item::Number(i64::MIN),
            Item::Other,
            Item::Other,
            Item::Other,
        ])
    );
    let empty: Vec<char> = " [ ] ".chars().collect();
    assert_eq!(read_payload(&empty), Some(vec![]));
    let bare: Vec<char> = "7".chars().collect();
    assert_eq!(read_payload(&bare), None);
}

#[test]
fn items_give_the_token_or_fail() {
    let items = vec![Item::Numbers(vec![66, 67]), Item::Number(1), Item::Numbers(vec![1, 2, 3])];
    // 66 - 3 and 67 - 2, reversed
    assert_eq!(token_from_items(&items), token("u", "A?"));
    let short_keys = vec![Item::Numbers(vec![66, 67]), Item::Number(1), Item::Numbers(vec![1])];
    assert_eq!(token_from_items(&short_keys), Err(AuthExtractionError));
    let no_flag = vec![Item::Numbers(vec![66]), Item::Other, Item::Numbers(vec![1])];
    assert_eq!(token_from_items(&no_flag), Err(AuthExtractionError));
    assert_eq!(token_from_items(&vec![]), Err(AuthExtractionError));
}

#[test]
fn parameter_name_of_items() {
    let mut items = vec![
        Item::Other,
        Item::Other,
        Item::Other,
        Item::Other,
        Item::Other,
        Item::Other,
        Item::Number(0x41),
    ];
    assert_eq!(parameter_name(&items), "A");
    items[6] = Item::Number(127);
    assert_eq!(parameter_name(&items), "\u{7f}");
    items[6] = Item::Number(0);
    assert_eq!(parameter_name(&items), "\u{0}");
    items[6] = Item::Number(300);
    assert_eq!(parameter_name(&items), "u");
    items.truncate(6);
    assert_eq!(parameter_name(&items), "u");
}

#[test]
fn find_from_gives_the_first_occurrence() {
    let text: Vec<char> = "abcabcab".chars().collect();
    let pattern: Vec<char> = "ca".chars().collect();
    assert_eq!(find_from(&text, &pattern, 0), Some(2));
    assert_eq!(find_from(&text, &pattern, 2), Some(2));
    assert_eq!(find_from(&text, &pattern, 3), Some(5));
    assert_eq!(find_from(&text, &pattern, 6), None);
    assert_eq!(find_from(&text, &pattern, 100), None);
    let tail: Vec<char> = "ab".chars().collect();
    assert_eq!(find_from(&text, &tail, 4), Some(6));
    let long: Vec<char> = "abcabcabc".chars().collect();
    assert_eq!(find_from(&text, &long, 0), None);
}
