use tedge_connect::file_transfer::{
    delete_status, get_status, put_status, separate_path_and_file_name, FileTransferError,
    HttpConfig, IpAddress,
};

#[test]
fn test_remove_prefix_from_uri() {
    let file_transfer = HttpConfig::default();
    let actual_output = file_transfer.local_path_for_uri("/tedge/some/dir/file".to_string()).ok();
    assert_eq!(actual_output, Some("/var/tedge/some/dir/file".to_string()));
}

#[test]
fn test_remove_prefix_from_wrong_uri() {
    let file_transfer = HttpConfig::default();
    let actual_output = file_transfer.local_path_for_uri("/wrong/some/dir/file".to_string()).ok();
    assert_eq!(actual_output, None);
}

#[test]
fn test_separate_path_and_file_name() {
    let (actual_path, actual_file_name) =
        separate_path_and_file_name("/tedge/some/dir/file".to_string()).unwrap();
    assert_eq!(actual_path, "/tedge/some/dir");
    assert_eq!(actual_file_name, "file");
}

#[test]
fn test_separate_path_and_empty_file_name() {
    let (actual_path, actual_file_name) =
        separate_path_and_file_name("/tedge/some/dir/".to_string()).unwrap();
    assert_eq!(actual_path, "/tedge/some/dir");
    assert_eq!(actual_file_name, "");
}

#[test]
fn separate_without_separator_is_none() {
    assert_eq!(separate_path_and_file_name("file".to_string()), None);
}

#[test]
fn test_verify_uri() {
    let file_transfer = HttpConfig::default();
    let res = file_transfer.local_path_for_uri("/tedge/file-transfer/../../../bin/sh".to_string());
    assert!(res.is_err());
    let res = file_transfer
        .local_path_for_uri("/tedge/file-transfer/../file-transfer/new/dir/file".to_string());
    assert!(res.is_ok());
}

#[test]
fn escaping_uri_names_the_normalised_path() {
    let file_transfer = HttpConfig::default();
    let res = file_transfer.local_path_for_uri("/tedge/file-transfer/../../../bin/sh".to_string());
    assert_eq!(res, Err(FileTransferError::InvalidURI { value: "/bin/sh".to_string() }));
}

#[test]
fn normalised_path_is_returned() {
    let file_transfer = HttpConfig::default();
    let res = file_transfer
        .local_path_for_uri("/tedge/file-transfer/../file-transfer//new/./dir/file".to_string());
    assert_eq!(res, Ok("/var/tedge/file-transfer/new/dir/file".to_string()));
}

#[test]
fn sibling_directory_with_same_prefix_is_rejected() {
    let file_transfer = HttpConfig::default();
    let res = file_transfer.local_path_for_uri("/tedge/../tedgex/file".to_string());
    assert!(res.is_err());
}

#[test]
fn accept_clean_path_compares_whole_names() {
    let file_transfer = HttpConfig::default().with_file_transfer_dir("/var/tedge".to_string());
    assert!(file_transfer.accept_clean_path("/var/tedge/a".to_string()).is_ok());
    assert!(file_transfer.accept_clean_path("/var/tedge".to_string()).is_ok());
    assert!(file_transfer.accept_clean_path("/var/tedgex/a".to_string()).is_err());
}

#[test]
fn builders_and_end_point() {
    let config = HttpConfig::default()
        .with_port(3000)
        .with_ip_address(IpAddress::V4(10, 0, 0, 2))
        .with_file_transfer_dir("/tmp/ft".to_string());
    assert_eq!(config.bind_address.port, 3000);
    assert_eq!(config.bind_address.ip, IpAddress::V4(10, 0, 0, 2));
    assert_eq!(config.file_transfer_dir_as_string(), "/tmp/ft");
    assert_eq!(config.file_transfer_end_point(), "/tedge/file-transfer/*");
    assert_eq!(HttpConfig::default().bind_address.port, 80);
}

#[test]
fn response_statuses() {
    assert_eq!(put_status(true, true), 201);
    assert_eq!(put_status(true, false), 403);
    assert_eq!(put_status(false, true), 403);
    assert_eq!(get_status(false, false), 404);
    assert_eq!(get_status(true, true), 404);
    assert_eq!(get_status(true, false), 200);
    assert_eq!(delete_status(false, false), 202);
    assert_eq!(delete_status(true, true), 202);
    assert_eq!(delete_status(true, false), 403);
}
