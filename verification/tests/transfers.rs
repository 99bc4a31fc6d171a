use vps_deploy::transfer::{
    check_request, file_name, is_file_name, join_local, plan_download, plan_upload, Disposition,
    RequestError, SkipReason,
};

#[test]
fn file_name_is_what_follows_the_last_slash() {
    assert_eq!(file_name("/home/me/report.pdf"), "report.pdf");
    assert_eq!(file_name("report.pdf"), "report.pdf");
    assert_eq!(file_name("/home/me/"), "");
    assert_eq!(file_name(""), "");
    assert_eq!(file_name("/"), "");
    assert_eq!(file_name("a/b/.."), "..");
    assert_eq!(file_name("/tmp/été.txt"), "été.txt");
}

#[test]
fn names_that_name_no_file() {
    assert!(is_file_name("report.pdf"));
    assert!(is_file_name("..."));
    assert!(is_file_name(".a"));
    assert!(is_file_name("a."));
    assert!(is_file_name("x"));
    assert!(!is_file_name(""));
    assert!(!is_file_name("."));
    assert!(!is_file_name(".."));
}

#[test]
fn upload_goes_to_the_remote_directory_under_its_own_name() {
    assert_eq!(
        plan_upload("/home/admin/uploads/", "/home/me/report.pdf", true),
        Disposition::Transfer("/home/admin/uploads/report.pdf".to_string())
    );
    assert_eq!(
        plan_upload("/home/admin/uploads", "report.pdf", true),
        Disposition::Transfer("/home/admin/uploads/report.pdf".to_string())
    );
}

#[test]
fn upload_skips_what_is_no_regular_file() {
    assert_eq!(
        plan_upload("/home/admin/uploads", "/home/me", false),
        Disposition::Skip(SkipReason::NotARegularFile)
    );
    assert_eq!(
        plan_upload("/home/admin/uploads", "/home/me/", false),
        Disposition::Skip(SkipReason::NotARegularFile)
    );
    assert_eq!(
        plan_upload("/home/admin/uploads", "/home/me/", true),
        Disposition::Skip(SkipReason::NoFileName)
    );
    assert_eq!(
        plan_upload("/home/admin/uploads", "..", true),
        Disposition::Skip(SkipReason::NoFileName)
    );
}

#[test]
fn download_goes_to_the_local_directory_under_its_own_name() {
    assert_eq!(
        plan_download("downloads", "/var/log/syslog"),
        Disposition::Transfer("downloads/syslog".to_string())
    );
    assert_eq!(
        plan_download("downloads/", "/var/log/syslog"),
        Disposition::Transfer("downloads/syslog".to_string())
    );
    assert_eq!(
        plan_download("", "/var/log/syslog"),
        Disposition::Transfer("./syslog".to_string())
    );
    assert_eq!(
        plan_download("/", "syslog"),
        Disposition::Transfer("/syslog".to_string())
    );
    assert_eq!(plan_download("downloads", "/var/log/"), Disposition::Skip(SkipReason::NoFileName));
    assert_eq!(plan_download("downloads", "/"), Disposition::Skip(SkipReason::NoFileName));
    assert_eq!(plan_download("downloads", "/var/.."), Disposition::Skip(SkipReason::NoFileName));
}

#[test]
fn local_paths_are_joined_like_a_path_buffer_joins_them() {
    for (dir, name) in [("downloads", "a.txt"), ("downloads/", "a.txt"), (".", "a.txt"), ("/", "a")]
    {
        let expected = std::path::Path::new(dir).join(name);
        assert_eq!(join_local(dir, name), expected.to_str().unwrap());
    }
    assert_eq!(join_local("", "a.txt"), "./a.txt");
}

#[test]
fn requests_need_files_and_a_directory() {
    let none: Vec<String> = Vec::new();
    let some = vec!["a.txt".to_string()];
    assert_eq!(check_request(&none, Some("/uploads")), Err(RequestError::NoFiles));
    assert_eq!(check_request(&none, Some("")), Err(RequestError::NoFiles));
    assert_eq!(check_request(&none, None), Err(RequestError::NoFiles));
    assert_eq!(check_request(&some, Some("")), Err(RequestError::NoDirectory));
    assert_eq!(check_request(&some, Some("/uploads")), Ok(()));
    assert_eq!(check_request(&some, None), Ok(()));
}
