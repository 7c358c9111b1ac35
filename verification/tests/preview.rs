use file_browser::DefaultPreviewLoader;
use file_browser::PreviewContent;
use file_browser::TreeItem;

fn item(depth: usize, name: &str) -> TreeItem {
    TreeItem { depth, name: name.to_string() }
}

fn bmp_3x2() -> Vec<u8> {
    let mut v: Vec<u8> = Vec::new();
    v.extend_from_slice(b"BM");
    v.extend_from_slice(&(54u32 + 24).to_le_bytes());
    v.extend_from_slice(&[0, 0, 0, 0]);
    v.extend_from_slice(&54u32.to_le_bytes());
    v.extend_from_slice(&40u32.to_le_bytes());
    v.extend_from_slice(&3i32.to_le_bytes());
    v.extend_from_slice(&2i32.to_le_bytes());
    v.extend_from_slice(&1u16.to_le_bytes());
    v.extend_from_slice(&24u16.to_le_bytes());
    v.extend_from_slice(&0u32.to_le_bytes());
    v.extend_from_slice(&24u32.to_le_bytes());
    v.extend_from_slice(&0i32.to_le_bytes());
    v.extend_from_slice(&0i32.to_le_bytes());
    v.extend_from_slice(&0u32.to_le_bytes());
    v.extend_from_slice(&0u32.to_le_bytes());
    v.extend_from_slice(&[0u8; 24]);
    v
}

#[test]
fn zero_length_file_is_binary_of_size_zero() {
    let loader = DefaultPreviewLoader;
    match loader.classify_file("empty".to_string(), Vec::new()) {
        PreviewContent::Binary { title, size } => {
            assert_eq!(title, "empty");
            assert_eq!(size, 0);
        }
        _ => panic!("expected a binary classification"),
    }
}

#[test]
fn utf8_bytes_are_text_with_full_content() {
    let loader = DefaultPreviewLoader;
    match loader.classify_file("notes.txt".to_string(), b"hello\nworld\n".to_vec()) {
        PreviewContent::Text { title, content } => {
            assert_eq!(title, "notes.txt");
            assert_eq!(content, "hello\nworld\n");
        }
        _ => panic!("expected a text classification"),
    }
}

#[test]
fn non_utf8_bytes_are_binary_with_their_length() {
    let loader = DefaultPreviewLoader;
    match loader.classify_file("blob".to_string(), vec![0xff, 0xfe, 0x00, 0x41]) {
        PreviewContent::Binary { title, size } => {
            assert_eq!(title, "blob");
            assert_eq!(size, 4);
        }
        _ => panic!("expected a binary classification"),
    }
}

#[test]
fn decodable_image_reports_its_dimensions() {
    let loader = DefaultPreviewLoader;
    match loader.classify_file("pic.bmp".to_string(), bmp_3x2()) {
        PreviewContent::Image { title, width, height, color_type } => {
            assert_eq!(title, "pic.bmp");
            assert_eq!(width, 3);
            assert_eq!(height, 2);
            assert_eq!(color_type, "Unknown");
        }
        _ => panic!("expected an image classification"),
    }
}

#[test]
fn image_extension_without_decodable_header_reports_no_dimensions() {
    let loader = DefaultPreviewLoader;
    match loader.classify_file("broken.png".to_string(), b"not an image at all".to_vec()) {
        PreviewContent::Image { width, height, color_type, .. } => {
            assert_eq!(width, 0);
            assert_eq!(height, 0);
            assert_eq!(color_type, "Unknown (Metadata Load Failed)");
        }
        _ => panic!("expected the extension fallback"),
    }
}

#[test]
fn image_extension_check_ignores_ascii_case() {
    let loader = DefaultPreviewLoader;
    match loader.classify_file("SHOT.JPG".to_string(), b"junk".to_vec()) {
        PreviewContent::Image { width, height, .. } => {
            assert_eq!(width, 0);
            assert_eq!(height, 0);
        }
        _ => panic!("expected the extension fallback"),
    }
}

#[test]
fn dotfile_name_has_no_extension() {
    let loader = DefaultPreviewLoader;
    match loader.classify_file(".png".to_string(), b"x".to_vec()) {
        PreviewContent::Text { content, .. } => assert_eq!(content, "x"),
        _ => panic!("a leading dot names no extension"),
    }
}

#[test]
fn probed_dimensions_take_precedence() {
    let loader = DefaultPreviewLoader;
    match loader.classify_probed("shot".to_string(), b"raw pixels".to_vec(), Some((7, 9))) {
        PreviewContent::Image { title, width, height, color_type } => {
            assert_eq!(title, "shot");
            assert_eq!(width, 7);
            assert_eq!(height, 9);
            assert_eq!(color_type, "Unknown");
        }
        _ => panic!("expected an image classification"),
    }
}

#[test]
fn without_probed_dimensions_text_still_wins() {
    let loader = DefaultPreviewLoader;
    match loader.classify_probed("a.txt".to_string(), b"abc".to_vec(), None) {
        PreviewContent::Text { content, .. } => assert_eq!(content, "abc"),
        _ => panic!("expected a text classification"),
    }
}

#[test]
fn directory_walk_renders_as_indented_tree() {
    let loader = DefaultPreviewLoader;
    let items = vec![item(1, "src"), item(2, "lib.rs"), item(1, "README")];
    match loader.classify_dir("proj".to_string(), items) {
        PreviewContent::Text { title, content } => {
            assert_eq!(title, "proj");
            assert_eq!(content, "|-- src\n  |-- lib.rs\n|-- README\n");
        }
        _ => panic!("expected a tree listing"),
    }
}

#[test]
fn empty_directory_walk_renders_empty_tree() {
    let loader = DefaultPreviewLoader;
    match loader.classify_dir("hollow".to_string(), Vec::new()) {
        PreviewContent::Text { content, .. } => assert_eq!(content, ""),
        _ => panic!("expected a tree listing"),
    }
}
