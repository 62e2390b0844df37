use rockers::cli::{archive_digest_short, child_args, digest_short, id_map_line, layer_file_name};
use rockers::text::decimal_string;

#[test]
fn child_arguments_put_the_subcommand_first() {
    let command = vec!["/bin/sh".to_owned(), "-c".to_owned(), "echo hi".to_owned()];
    assert_eq!(child_args(&command), vec!["child", "/bin/sh", "-c", "echo hi"]);
}

#[test]
fn id_map_maps_the_host_id_to_root() {
    assert_eq!(id_map_line(1000), "0 1000 1\n");
    assert_eq!(id_map_line(0), "0 0 1\n");
    assert_eq!(id_map_line(u32::MAX), "0 4294967295 1\n");
}

#[test]
fn decimal_string_writes_digits() {
    for n in [0u64, 7, 10, 99, 100, 12345, u64::MAX] {
        assert_eq!(decimal_string(n), n.to_string());
    }
}

#[test]
fn layer_files_are_named_by_index_and_digest() {
    assert_eq!(layer_file_name(3, "sha256:abcd"), "3_sha256:abcd.tar.gz");
}

#[test]
fn short_digest_is_twelve_characters_after_the_algorithm() {
    let d = "sha256:44136fa355b3678a1146ad16f7e8649e94fb4fc21fe77e8310c060f61caaff8a";
    assert_eq!(digest_short(d), "44136fa355b3");
}

#[test]
fn archive_short_digest_is_read_after_the_last_colon() {
    let name = "0_sha256:44136fa355b3678a1146ad16f7e8649e94fb4fc21fe77e8310c060f61caaff8a.tar.gz";
    assert_eq!(archive_digest_short(name), "355b3678a114");
}
