use jsmoke::strings::chunk_by_any::ChunkByAny;

#[test]
fn deterministic_over_samples() {
    let samples = [
        ["!", "*", "@", "#", "&"],
        ["*", "#", "@", "&", "!"],
        ["@", "#", "*", "&", "!"],
        ["#", "@", "*", "&", "!"],
        ["&", "@", "*", "#", "!"],
        ["!", "@", "*", "#", "&"],
        ["*", "&", "@", "#", "!"],
        ["@", "&", "*", "#", "!"],
        ["#", "&", "*", "@", "!"],
        ["&", "#", "*", "@", "!"],
        ["!", "#", "*", "@", "&"],
        ["*", "!", "@", "#", "&"],
        ["@", "!", "*", "#", "&"],
        ["#", "!", "*", "@", "&"],
        ["&", "!", "*", "@", "#"],
        ["!", "&", "*", "@", "#"],
        ["*", "@", "&", "#", "!"],
        ["@", "*", "&", "#", "!"],
        ["#", "@", "&", "*", "!"],
        ["&", "@", "!", "*", "#"],
    ];
    let s = "Please!Sir*Separate@My#String&";
    let expected = [
        "Please", "!", "Sir", "*", "Separate", "@", "My", "#", "String", "&",
    ];
    samples.into_iter().enumerate().for_each(|(i, sample)| {
        assert_eq!(
            s.chunk_by_any(&sample),
            expected,
            "Failed to assert string: #{i}"
        );
    });
}

#[test]
fn empty_str() {
    assert_eq!(
        "".chunk_by_any(&["a sample"]),
        [] as [&str; 0],
        "Failed to assert str reference"
    );
}

#[test]
fn empty_str_no_sample() {
    assert_eq!("".chunk_by_any(&[]), [] as [&str; 0])
}

#[test]
fn empty_samples() {
    assert_eq!(
        "Some string example".to_string().chunk_by_any(&[]),
        ["Some string example"],
        "Failed to assert str reference"
    );
}

#[test]
fn sample_precedence() {
    let bad_chuncking = "Trying#@to#chunk@string".chunk_by_any(&["#", "@", "#@"]);
    let expect = ["Trying", "#", "@", "to", "#", "chunk", "@", "string"];
    assert_eq!(bad_chuncking, expect);
    let good_chuncking = "Trying#@to#chunk@string".chunk_by_any(&["#@", "#", "@"]);
    let expect = ["Trying", "#@", "to", "#", "chunk", "@", "string"];
    assert_eq!(good_chuncking, expect);
}

#[test]
fn chunks_put_together_are_the_text() {
    let by = ["::", "<", ">", "é"];
    for s in ["", "a", "::", "a::b<c>", "<<>>", "é::é", "x::", "::x", "no sample here", ":<:>:"] {
        let chunks = s.chunk_by_any(&by);
        assert_eq!(chunks.concat(), s);
        assert!(chunks.iter().all(|c| !c.is_empty()));
    }
}

#[test]
fn samples_next_to_each_other_leave_no_empty_piece() {
    assert_eq!("ab".chunk_by_any(&["a", "b"]), ["a", "b"]);
    assert_eq!("aab".chunk_by_any(&["a", "b"]), ["a", "a", "b"]);
    assert_eq!("<>".chunk_by_any(&["<>", "<", ">"]), ["<>"]);
    assert_eq!("<>".chunk_by_any(&["<", "<>", ">"]), ["<", ">"]);
    assert_eq!("é<é".chunk_by_any(&["<"]), ["é", "<", "é"]);
}
