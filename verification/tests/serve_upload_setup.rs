use image::GenericImageView;
use magnesium::config::Config;
use magnesium::reply::{Reply, ReplyBody};
use magnesium::serve::{
    convert_to_webp, file_unreadable_reply, has_valid_extension, image_unreadable_reply,
    pick_file, serve, serve_action, webp_reply, ServeAction,
};
use magnesium::setup::{buckets_setup, newly_created};
use magnesium::upload::{
    bucket_dir_missing_reply, process_image, upload, Picture, write_failure_reply, ProcessFailure,
    UploadSession, WriteFailure, MAX_UPLOAD_BYTES,
};

fn config(serve_as_webp: bool, allow_resizing: bool) -> Config {
    Config {
        parent_directory: "test_setup".to_string(),
        buckets: vec!["test_bucket_1".to_string(), "test_bucket_2".to_string()],
        serve_as_webp,
        allow_resizing,
        allow_admin: true,
        db_name: "magnesium_db".to_string(),
        collection_name: "keys".to_string(),
    }
}

fn error_of(r: &Reply) -> (u16, String) {
    match &r.body {
        ReplyBody::Error(e) => (r.status, e.clone()),
        _ => panic!("not an error reply"),
    }
}

fn is_v4_uuid(s: &str) -> bool {
    let b = s.as_bytes();
    b.len() == 36
        && b.iter().enumerate().all(|(i, c)| {
            if [8, 13, 18, 23].contains(&i) {
                *c == b'-'
            } else {
                c.is_ascii_digit() || (b'a'..=b'f').contains(c)
            }
        })
        && b[14] == b'4'
        && [b'8', b'9', b'a', b'b'].contains(&b[19])
}

#[test]
fn configured_buckets() {
    let c = config(true, true);
    assert!(c.has_bucket("test_bucket_1"));
    assert!(c.has_bucket("test_bucket_2"));
    assert!(!c.has_bucket("test_bucket_3"));
    assert!(!c.has_bucket(""));
}

#[test]
fn image_extensions_ignore_case() {
    assert!(has_valid_extension("test1.png"));
    assert!(has_valid_extension("TEST1.PNG"));
    assert!(has_valid_extension("photo.JpG"));
    assert!(has_valid_extension("anim.gif"));
    assert!(has_valid_extension("x.WEBP"));
    assert!(!has_valid_extension("jpg"));
    assert!(!has_valid_extension("mypng"));
    assert!(!has_valid_extension("photoJPG"));
    assert!(has_valid_extension(".png"));
    assert!(!has_valid_extension("test1"));
    assert!(!has_valid_extension("test1.jpeg"));
    assert!(!has_valid_extension("test1.png.txt"));
}

#[test]
fn serving_unknown_bucket() {
    let r = serve(&config(true, true), "other", "test1").err().unwrap();
    assert_eq!(error_of(&r), (404, "The requested bucket does not exist or is not accessible.".to_string()));
}

#[test]
fn serving_lists_candidates() {
    let l = serve(&config(true, true), "test_bucket_1", "test1").ok().unwrap();
    assert_eq!(l.base, "test_setup/test_bucket_1/test1");
    assert_eq!(
        l.candidates,
        vec![
            "test_setup/test_bucket_1/test1.jpg".to_string(),
            "test_setup/test_bucket_1/test1.gif".to_string(),
            "test_setup/test_bucket_1/test1.png".to_string(),
            "test_setup/test_bucket_1/test1.webp".to_string(),
        ]
    );
    assert!(!l.as_is);
    // an explicit image file ending is looked for as given
    let l = serve(&config(true, true), "test_bucket_1", "test1.png").ok().unwrap();
    assert_eq!(l.base, "test_setup/test_bucket_1/test1.png");
    assert!(l.candidates.is_empty());
    assert!(l.as_is);
    assert_eq!(pick_file(&l, &vec![]), "test_setup/test_bucket_1/test1.png");
    let l = serve(&config(true, true), "test_bucket_1", "Test1.JPG").ok().unwrap();
    assert!(l.candidates.is_empty());
    // a dotless name is no explicit ending: it is converted
    let l = serve(&config(true, true), "test_bucket_1", "mypng").ok().unwrap();
    assert_eq!(l.candidates.len(), 4);
    assert_eq!(l.candidates[2], "test_setup/test_bucket_1/mypng.png");
    assert!(!l.as_is);
    // another ending is replaced in the candidates
    let l = serve(&config(true, true), "test_bucket_1", "test1.txt").ok().unwrap();
    assert_eq!(l.candidates[0], "test_setup/test_bucket_1/test1.jpg");
    assert!(!l.as_is);
    let l = serve(&config(false, true), "test_bucket_2", "test1").ok().unwrap();
    assert!(l.as_is);
}

#[test]
fn picking_the_first_existing_file() {
    let l = serve(&config(true, true), "test_bucket_1", "test1").ok().unwrap();
    assert_eq!(pick_file(&l, &vec![false, false, true, true]), "test_setup/test_bucket_1/test1.png");
    assert_eq!(pick_file(&l, &vec![true, false, true, false]), "test_setup/test_bucket_1/test1.jpg");
    assert_eq!(pick_file(&l, &vec![false, false, false, false]), "test_setup/test_bucket_1/test1");
}

#[test]
fn serve_actions() {
    match serve_action(true, false, false) {
        ServeAction::Refuse(r) => assert_eq!(error_of(&r), (404, "File not found.".to_string())),
        _ => panic!(),
    }
    assert!(matches!(serve_action(false, true, true), ServeAction::Refuse(_)));
    assert!(matches!(serve_action(true, true, false), ServeAction::SendFile));
    assert!(matches!(serve_action(false, true, false), ServeAction::ConvertToWebp));
    assert_eq!(error_of(&file_unreadable_reply()), (404, "File not found.".to_string()));
    assert_eq!(
        error_of(&image_unreadable_reply()),
        (500, "Failed to open or recognize image file.".to_string())
    );
}

#[test]
fn webp_replies() {
    let r = webp_reply(Ok(vec![1, 2, 3]));
    assert_eq!(r.status, 200);
    assert!(matches!(r.body, ReplyBody::Webp(ref b) if *b == vec![1, 2, 3]));
    assert_eq!(error_of(&webp_reply(Err(()))), (500, "Failed to convert image to WebP.".to_string()));
}

#[test]
fn converting_an_image_to_webp() {
    let mut rgb = image::RgbImage::new(3, 2);
    rgb.put_pixel(1, 1, image::Rgb([200, 10, 30]));
    let img = image::DynamicImage::ImageRgb8(rgb);
    let mut expected = std::io::Cursor::new(Vec::new());
    img.write_to(&mut expected, image::ImageOutputFormat::WebP).unwrap();
    let again = convert_to_webp(&img);
    match again.body {
        ReplyBody::Webp(bytes) => assert_eq!(bytes, expected.into_inner()),
        _ => panic!("not webp"),
    }
    let r = convert_to_webp(&img);
    assert_eq!(r.status, 200);
    match r.body {
        ReplyBody::Webp(bytes) => {
            assert_eq!(&bytes[0..4], b"RIFF");
            assert_eq!(&bytes[8..12], b"WEBP");
        },
        _ => panic!("not webp"),
    }
}

#[test]
fn upload_gates() {
    let c = config(true, true);
    let r = upload(&c, false, "test_bucket_1").err().unwrap();
    assert_eq!(error_of(&r), (401, "Invalid or unauthorized API key.".to_string()));
    let r = upload(&c, false, "nope").err().unwrap();
    assert_eq!(error_of(&r), (401, "Invalid or unauthorized API key.".to_string()));
    let r = upload(&c, true, "nope").err().unwrap();
    assert_eq!(error_of(&r), (404, "The requested bucket does not exist or is not accessible.".to_string()));
    let t = upload(&c, true, "test_bucket_2").ok().unwrap();
    assert_eq!(t.bucket, "test_bucket_2");
    assert_eq!(t.data_path, "./test_setup/test_bucket_2");
    assert_eq!(error_of(&bucket_dir_missing_reply()), (404, "The requested bucket does not exist.".to_string()));
}

#[test]
fn uploaded_files_are_renamed() {
    let t = upload(&config(true, true), true, "test_bucket_1").ok().unwrap();
    let mut s = UploadSession::new(t);
    let f = s.start_file(Some("holiday.PNG"));
    assert!(f.name.ends_with(".PNG"));
    assert!(is_v4_uuid(&f.name[..36]));
    assert_eq!(f.name.len(), 40);
    assert_eq!(f.path, format!("./test_setup/test_bucket_1/{}", f.name));
    let g = s.start_file(Some("archive.tar.gz"));
    assert!(g.name.ends_with(".gz") && is_v4_uuid(&g.name[..36]) && g.name.len() == 39);
    assert_ne!(f.name[..36], g.name[..36]);
    let h = s.start_file(None);
    assert!(is_v4_uuid(&h.name[..36]));
    assert_eq!(&h.name[36..], ".");
    let k = s.start_file(Some(".hidden"));
    assert_eq!(&k.name[36..], ".");
}

#[test]
fn uploads_cannot_leave_their_bucket() {
    let t = upload(&config(true, true), true, "test_bucket_1").ok().unwrap();
    let mut s = UploadSession::new(t);
    for sent in ["../../etc/passwd.png", "/abs/x.jpg", "dir/sub.d/file", "a/b/.c"] {
        let f = s.start_file(Some(sent));
        assert!(!f.name.contains('/'), "{sent}");
        assert_eq!(f.path, format!("./test_setup/test_bucket_1/{}", f.name));
    }
    let f = s.start_file(Some("../../etc/passwd.png"));
    assert!(f.name.ends_with(".png"));
    let g = s.start_file(Some("dir/sub.d/file"));
    assert_eq!(&g.name[36..], ".");
}

#[test]
fn size_limit_per_file() {
    assert_eq!(MAX_UPLOAD_BYTES, 1024 * 1024 * 1024);
    let t = upload(&config(true, true), true, "test_bucket_1").ok().unwrap();
    let mut s = UploadSession::new(t);
    let _ = s.start_file(Some("a.png"));
    assert!(s.accept_chunk(MAX_UPLOAD_BYTES - 10).is_ok());
    assert!(s.accept_chunk(10).is_ok());
    let r = s.accept_chunk(1).err().unwrap();
    assert_eq!(error_of(&r), (413, "File size exceeds the 1GB limit.".to_string()));
    // a new file starts counting again
    let _ = s.start_file(Some("b.png"));
    assert!(s.accept_chunk(5).is_ok());
    assert!(s.accept_chunk(usize::MAX).is_err());
}

#[test]
fn finishing_files_and_upload() {
    let t = upload(&config(true, true), true, "test_bucket_1").ok().unwrap();
    let mut s = UploadSession::new(t);
    let f = s.start_file(Some("a.png"));
    assert!(s.finish_file(f.name.clone(), Ok(())).is_none());
    let g = s.start_file(Some("b.jpg"));
    assert!(s.finish_file(g.name.clone(), Ok(())).is_none());
    let r = s.finish();
    assert_eq!(r.status, 200);
    match r.body {
        ReplyBody::Uploaded { message, files } => {
            assert_eq!(message, "File(s) uploaded and processed successfully.");
            assert_eq!(files.len(), 2);
            assert_eq!(files[0].name, f.name);
            assert_eq!(files[0].bucket, "test_bucket_1");
            assert_eq!(files[1].name, g.name);
            assert_eq!(files[1].bucket, "test_bucket_1");
        },
        _ => panic!("wrong body"),
    }
}

#[test]
fn processing_failures_and_empty_uploads() {
    let t = upload(&config(true, true), true, "test_bucket_1").ok().unwrap();
    let mut s = UploadSession::new(t);
    let f = s.start_file(Some("a.png"));
    let r = s.finish_file(f.name, Err(ProcessFailure::Open)).unwrap();
    assert_eq!(error_of(&r), (400, "Failed to open or recognize image file.".to_string()));
    let g = s.start_file(Some("b.png"));
    let r = s.finish_file(g.name, Err(ProcessFailure::Save)).unwrap();
    assert_eq!(error_of(&r), (400, "Failed to save processed image.".to_string()));
    assert_eq!(error_of(&s.finish()), (400, "No files were uploaded.".to_string()));
    assert_eq!(error_of(&write_failure_reply(WriteFailure::Create)), (500, "Failed to create file.".to_string()));
    assert_eq!(error_of(&write_failure_reply(WriteFailure::Write)), (500, "Error writing file.".to_string()));
}

#[test]
fn resizing_only_when_allowed_and_complete() {
    let img = image::DynamicImage::new_rgba8(4, 4);
    let p = Picture::new(img.clone());
    assert_eq!((p.width(), p.height()), (4, 4));
    let r = process_image(Picture::new(img.clone()), true, Some(2), Some(3));
    assert_eq!((r.width(), r.height()), (2, 3));
    assert_eq!(r.image().dimensions(), (2, 3));
    assert_eq!(r.into_image().dimensions(), (2, 3));
    let mut rgba = image::RgbaImage::new(4, 4);
    for (x, y, p) in rgba.enumerate_pixels_mut() {
        *p = image::Rgba([(x * 60) as u8, (y * 60) as u8, 7, 255]);
    }
    let varied = image::DynamicImage::ImageRgba8(rgba);
    let expected = varied.resize_exact(2, 3, image::imageops::FilterType::Nearest);
    let r = process_image(Picture::new(varied.clone()), true, Some(2), Some(3));
    assert_eq!(r.into_image().as_bytes(), expected.as_bytes());
    let r = process_image(Picture::new(img.clone()), true, Some(4), Some(4));
    assert_eq!((r.width(), r.height()), (4, 4));
    let r = process_image(Picture::new(img.clone()), false, Some(2), Some(3));
    assert_eq!((r.width(), r.height()), (4, 4));
    assert_eq!(r.image().dimensions(), (4, 4));
    let r = process_image(Picture::new(img.clone()), true, Some(2), None);
    assert_eq!((r.width(), r.height()), (4, 4));
    let r = process_image(Picture::new(img.clone()), true, None, Some(3));
    assert_eq!(r.into_image().dimensions(), (4, 4));
}

#[test]
fn bucket_directories() {
    let dirs = buckets_setup("test_setup", &vec!["test_bucket_1".to_string(), "test_bucket_2".to_string()]);
    assert_eq!(dirs, vec!["test_setup", "test_setup/test_bucket_1", "test_setup/test_bucket_2"]);
    let dirs = buckets_setup("data/", &vec!["/abs".to_string()]);
    assert_eq!(dirs, vec!["data/", "/abs"]);
    assert_eq!(buckets_setup("p", &vec![]), vec!["p"]);
}

#[test]
fn counting_new_directories() {
    assert_eq!(newly_created(&vec![]), 0);
    assert_eq!(newly_created(&vec![true, false, false]), 2);
    assert_eq!(newly_created(&vec![true, true]), 0);
    assert_eq!(newly_created(&vec![false]), 1);
}
