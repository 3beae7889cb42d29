use grabby::resize::{
    derive_bitrates, needs_remediation, remediate, settle, MediaKind, Remediation, Unshrinkable,
};
use grabby::types::MediaFile;

fn file(name: &str, size: usize) -> MediaFile {
    MediaFile { filename: name.to_string(), data: vec![0; size] }
}

#[test]
fn test_resize_image_file_within_limit() {
    let data = vec![0u8; 1_000_000];
    match remediate(MediaFile { filename: "test.jpg".to_string(), data: data.clone() }, MediaKind::Image, 10 * 1_000_000) {
        Remediation::UnderBudget(f) => {
            assert_eq!(f.data.len(), data.len());
            assert_eq!(f.data, data);
        }
        other => panic!("unexpected {:?}", other),
    }
}

#[test]
fn test_resize_image_file_exactly_at_limit() {
    let data = vec![0u8; 10_000_000];
    match remediate(MediaFile { filename: "test.jpg".to_string(), data: data.clone() }, MediaKind::Image, 10 * 1_000_000) {
        Remediation::UnderBudget(f) => assert_eq!(f.data.len(), data.len()),
        other => panic!("unexpected {:?}", other),
    }
}

#[test]
fn test_resize_media_file_within_limit() {
    let data = vec![0u8; 1_000_000];
    match remediate(MediaFile { filename: "test.mp4".to_string(), data: data.clone() }, MediaKind::Video, 10 * 1_000_000) {
        Remediation::UnderBudget(f) => {
            assert_eq!(f.data.len(), data.len());
            assert_eq!(f.data, data);
        }
        other => panic!("unexpected {:?}", other),
    }
}

#[test]
fn test_resize_media_file_exactly_at_limit() {
    let data = vec![0u8; 10_000_000];
    match remediate(MediaFile { filename: "test.mp4".to_string(), data: data.clone() }, MediaKind::Video, 10 * 1_000_000) {
        Remediation::UnderBudget(f) => assert_eq!(f.data.len(), data.len()),
        other => panic!("unexpected {:?}", other),
    }
}

#[test]
fn remediation_twice_is_identical() {
    let original = MediaFile { filename: "a.png".to_string(), data: vec![7, 8, 9] };
    let once = match remediate(original.clone(), MediaKind::Image, 3) {
        Remediation::UnderBudget(f) => f,
        other => panic!("unexpected {:?}", other),
    };
    let twice = match remediate(once.clone(), MediaKind::Image, 3) {
        Remediation::UnderBudget(f) => f,
        other => panic!("unexpected {:?}", other),
    };
    assert_eq!(once.data, original.data);
    assert_eq!(twice.data, once.data);
    assert_eq!(twice.filename, original.filename);
}

#[test]
fn one_byte_over_budget_unshrinkable_is_left_out() {
    assert!(needs_remediation(11, 10));
    assert!(!needs_remediation(10, 10));
    let job = match remediate(file("big.mp4", 11), MediaKind::Video, 10) {
        Remediation::NeedsShrink(j) => j,
        other => panic!("unexpected {:?}", other),
    };
    let failed = job.conclude(Err("encoder crashed".to_string()));
    assert_eq!(
        failed,
        Err(Unshrinkable { filename: "big.mp4".to_string(), size: 11, reason: "encoder crashed".to_string() })
    );
    let sibling = file("small.jpg", 3);
    let settled = settle(vec![Ok(sibling.clone()), failed]).unwrap();
    assert_eq!(settled.files.len(), 1);
    assert_eq!(settled.files[0].filename, "small.jpg");
    assert_eq!(settled.skipped.len(), 1);
    assert_eq!(settled.skipped[0].filename, "big.mp4");
    assert_eq!(settled.skipped[0].size, 11);
}

#[test]
fn all_files_oversized_fails_with_every_name() {
    let a = Unshrinkable { filename: "a.mp4".to_string(), size: 20, reason: "x".to_string() };
    let b = Unshrinkable { filename: "b.mp4".to_string(), size: 30, reason: "y".to_string() };
    let r = settle(vec![Err(a.clone()), Err(b.clone())]);
    assert_eq!(r.unwrap_err(), vec![a, b]);
}

#[test]
fn shrunk_file_must_fit() {
    let job = match remediate(file("p.png", 20), MediaKind::Image, 10) {
        Remediation::NeedsShrink(j) => j,
        other => panic!("unexpected {:?}", other),
    };
    assert_eq!(job.output_ext(), "png");
    let ok = job.conclude(Ok(vec![1; 10])).unwrap();
    assert_eq!(ok.filename, "p.png");
    assert_eq!(ok.data.len(), 10);
    let job = match remediate(file("p.png", 20), MediaKind::Image, 10) {
        Remediation::NeedsShrink(j) => j,
        other => panic!("unexpected {:?}", other),
    };
    let too_big = job.conclude(Ok(vec![1; 11])).unwrap_err();
    assert_eq!(too_big.size, 20);
    assert_eq!(too_big.reason, "the shrunk file is still over the size limit");
}

#[test]
fn bitrate_derivation() {
    let r = derive_bitrates(10_000_000, 100);
    assert_eq!(r.total, 800_000);
    assert_eq!(r.video, 720_000);
    assert_eq!(r.audio, 80_000);
    let r = derive_bitrates(10_000_000, 7);
    assert_eq!(r.total, 11_428_571);
    assert_eq!(r.video, 10_285_713);
    assert_eq!(r.audio, 1_142_857);
}

#[test]
fn video_plan_and_pass_arguments() {
    let job = match remediate(file("clip.webm", 20_000_000), MediaKind::Video, 10_000_000) {
        Remediation::NeedsShrink(j) => j,
        other => panic!("unexpected {:?}", other),
    };
    assert_eq!(job.output_ext(), "webm");
    assert!(job.plan_video(None).is_err());
    assert!(job.plan_video(Some(0)).is_err());
    let slow = job.plan_video(Some(1_000_000)).unwrap();
    assert_eq!(slow.total, 80);
    assert!(job.check_first_pass(true).is_ok());
    assert_eq!(job.check_first_pass(false).unwrap_err().filename, "clip.webm");
    let rates = job.plan_video(Some(100)).unwrap();
    let first = job.first_pass_args("in", "log", rates);
    assert_eq!(first[9], "720k");
    assert_eq!(first[11], "1");
    assert_eq!(first.last().unwrap(), "-");
    let second = job.second_pass_args("in", "log", "out.webm", rates);
    assert_eq!(second[9], "720k");
    assert_eq!(second[11], "2");
    assert_eq!(second[17], "80k");
    assert_eq!(second.last().unwrap(), "out.webm");
}

#[test]
fn image_arguments_and_extensions() {
    let job = match remediate(file("x.gif", 5), MediaKind::Image, 1) {
        Remediation::NeedsShrink(j) => j,
        other => panic!("unexpected {:?}", other),
    };
    assert_eq!(job.output_ext(), "jpg");
    let args = job.image_args("in.gif", "out.jpg");
    assert_eq!(args[0], "-i");
    assert_eq!(args[1], "in.gif");
    assert_eq!(args[5], "85");
    assert_eq!(args[7], "out.jpg");
    let job = match remediate(file("x.mov", 5), MediaKind::Video, 1) {
        Remediation::NeedsShrink(j) => j,
        other => panic!("unexpected {:?}", other),
    };
    assert_eq!(job.output_ext(), "mov");
}
