use tubedl::identifier::resolve;
use tubedl::path::download_path;

const ID: &str = "dQw4w9WgXcQ";

#[test]
fn defaults_give_id_dot_mp4_in_working_directory() {
    let id = resolve(ID).unwrap();
    let target = download_path(None, None, &id);
    assert_eq!(target.as_str(), "dQw4w9WgXcQ.mp4");
}

#[test]
fn explicit_filename_and_directory_ignore_the_id() {
    let id = resolve(ID).unwrap();
    let target = download_path(Some("out.mp4".to_string()), Some("/tmp".to_string()), &id);
    assert_eq!(target.as_str(), "/tmp/out.mp4");
}

#[test]
fn explicit_filename_and_directory_for_another_id() {
    let id = resolve("a_b-c_d-e_f").unwrap();
    let target = download_path(Some("out.mp4".to_string()), Some("/tmp".to_string()), &id);
    assert_eq!(target.as_str(), "/tmp/out.mp4");
}

#[test]
fn filename_alone_stays_relative() {
    let id = resolve(ID).unwrap();
    let target = download_path(Some("clip.webm".to_string()), None, &id);
    assert_eq!(target.as_str(), "clip.webm");
}

#[test]
fn directory_alone_keeps_default_filename() {
    let id = resolve(ID).unwrap();
    let target = download_path(None, Some("videos".to_string()), &id);
    assert_eq!(target.as_str(), "videos/dQw4w9WgXcQ.mp4");
}

#[test]
fn trailing_separator_is_not_doubled() {
    let id = resolve(ID).unwrap();
    let target = download_path(Some("out.mp4".to_string()), Some("/tmp/".to_string()), &id);
    assert_eq!(target.as_str(), "/tmp/out.mp4");
}

#[test]
fn absolute_filename_replaces_the_directory() {
    let id = resolve(ID).unwrap();
    let target = download_path(Some("/elsewhere/out.mp4".to_string()), Some("/tmp".to_string()), &id);
    assert_eq!(target.as_str(), "/elsewhere/out.mp4");
}

#[test]
fn empty_directory_behaves_like_none() {
    let id = resolve(ID).unwrap();
    let target = download_path(None, Some(String::new()), &id);
    assert_eq!(target.as_str(), "dQw4w9WgXcQ.mp4");
}
