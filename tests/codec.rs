use garman::codec::{compress_vec, decompress_to_vec};

fn strings(v: &[&str]) -> Vec<String> {
    v.iter().map(|s| s.to_string()).collect()
}

#[test]
fn encode_concatenates_without_separator() {
    assert_eq!(compress_vec(&strings(&["a", "b"])), "ab");
    assert_eq!(compress_vec(&strings(&["ab"])), "ab");
}

#[test]
fn encode_is_lossy_at_token_boundaries() {
    assert_eq!(
        compress_vec(&strings(&["x", "yz", "w"])),
        compress_vec(&strings(&["xy", "zw"]))
    );
}

#[test]
fn encode_empty_list_is_empty_text() {
    assert_eq!(compress_vec(&Vec::new()), "");
}

#[test]
fn decode_splits_on_commas() {
    assert_eq!(decompress_to_vec("a,b".to_string()), strings(&["a", "b"]));
}

#[test]
fn decode_keeps_empty_pieces() {
    assert_eq!(decompress_to_vec("".to_string()), strings(&[""]));
    assert_eq!(decompress_to_vec(",a,,".to_string()), strings(&["", "a", "", ""]));
}

#[test]
fn decode_of_encode_is_not_the_input() {
    let tokens = strings(&["a", "b"]);
    assert_eq!(decompress_to_vec(compress_vec(&tokens)), strings(&["ab"]));
}

#[test]
fn decode_handles_multibyte_characters() {
    assert_eq!(decompress_to_vec("é,ü".to_string()), strings(&["é", "ü"]));
}
