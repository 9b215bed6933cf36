use hostinfo::base::unit::parse_mem_size;

#[test]
fn test_parse_mem_size() {
    const PAIRS: &[(&str, Option<i64>)] = &[
        ("", None),
        ("16", Some(16)),
        ("16 \t\n", Some(16)),
        ("4k", Some(4096)),
        ("4 K", Some(4096)),
        ("4M", Some(4194304)),
        (" 4 M", Some(4194304)),
    ];
    for (key, value) in PAIRS {
        assert_eq!(parse_mem_size(key), *value);
    }
}
