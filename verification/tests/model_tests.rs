use saten::archive_reader::{ArchiveError, CompressionType, MemberFile};
use saten::controller::keyboard_handler::KeyboardHandler;
use saten::model::app_state::{AppState, DisplayMode};
use saten::model::archive_manager::ArchiveManager;
use saten::model::image_manager::ImageManager;
use saten::model::page_manager::PageManager;
use saten::controller::file_handler::FileHandler;
use saten::text::extension_of;
use saten::view::app_view::AppView;

#[test]
fn test_app_state_initialization() {
    let state = AppState::new();
    assert_eq!(state.current_file_index, 0);
    assert_eq!(state.total_files, 0);
    assert!(!state.has_files());
    assert!(!state.rotate_mode);
}

#[test]
fn test_app_state_navigation() {
    let mut state = AppState::new();

    state.total_files = 10;
    state.current_file_index = 0;

    state.next_page();
    assert_eq!(state.current_file_index, 2);

    state.previous_page();
    assert_eq!(state.current_file_index, 0);
}

#[test]
fn test_display_mode_switching() {
    let mut state = AppState::new();

    assert!(matches!(state.display_mode, DisplayMode::Double));

    state.set_display_mode(DisplayMode::Single);
    assert!(matches!(state.display_mode, DisplayMode::Single));
}

#[test]
fn test_rotate_mode_toggle() {
    let mut state = AppState::new();

    assert!(!state.rotate_mode);

    state.toggle_rotate_mode();
    assert!(state.rotate_mode);

    state.toggle_rotate_mode();
    assert!(!state.rotate_mode);
}

#[test]
fn test_archive_manager_validation() {
    let file = MemberFile {
        filepath: "test.jpg".to_string(),
        filename: "test.jpg".to_string(),
        offset: 0,
        size: 1024,
        fsize: 1024,
        ctype: CompressionType::Uncompress,
    };

    assert!(ArchiveManager::validate_file_info(&file));
    assert!(ArchiveManager::is_supported_compression(&file.ctype));
}

#[test]
fn test_image_format_detection() {
    let jpeg_data = vec![0xFF, 0xD8, 0xFF, 0xE0];
    assert!(ImageManager::validate_image_data(&jpeg_data));

    let png_data = vec![0x89, 0x50, 0x4E, 0x47, 0x0D, 0x0A, 0x1A, 0x0A];
    assert!(ImageManager::validate_image_data(&png_data));

    let invalid_data = vec![0x00, 0x00, 0x00, 0x00];
    assert!(!ImageManager::validate_image_data(&invalid_data));
}

#[test]
fn test_page_manager_navigation() {
    let mut state = AppState::new();
    state.total_files = 10;

    PageManager::next_page(&mut state);
    assert_eq!(state.current_file_index, 2);

    PageManager::previous_page(&mut state);
    assert_eq!(state.current_file_index, 0);

    state.current_file_index = 5;
    PageManager::goto_first_page(&mut state);
    assert_eq!(state.current_file_index, 0);

    PageManager::goto_last_page(&mut state);
    assert!(state.current_file_index >= state.total_files - 2);
}

#[test]
fn test_keyboard_shortcuts_list() {
    let shortcuts = KeyboardHandler::get_keyboard_shortcuts();
    assert!(!shortcuts.is_empty());

    let has_left_arrow = shortcuts.iter().any(|s| s.key == "←");
    assert!(has_left_arrow);
}

#[test]
fn test_file_extension_validation() {
    let rar_path = "test.rar";
    let zip_path = "test.zip";
    let txt_path = "test.txt";

    assert!(extension_of(rar_path).is_some());
    assert!(extension_of(zip_path).is_some());
    assert!(extension_of(txt_path).is_some());
}

#[test]
fn test_mvc_integration() {
    let mut state = AppState::new();

    let test_path = "test.rar".to_string();
    state.set_file_path(test_path);

    assert!(!state.file_path_string().is_empty());

    state.reset();
    assert!(!state.has_files());
    assert_eq!(state.current_file_index, 0);
}

#[test]
fn test_error_handling() {
    let error = ArchiveError::UnsupportedFormat;
    assert!(!error.message().is_empty());

    let bounds_error = ArchiveError::OutOfBounds { offset: 100, size: 50, buffer_len: 120 };
    assert!(bounds_error.message().contains("範囲外"));
}

#[test]
fn benchmark_state_operations() {
    let mut state = AppState::new();
    state.total_files = 1000;

    let start = std::time::Instant::now();

    for _ in 0..100 {
        state.next_page();
        if state.current_file_index >= 990 {
            state.reset();
            state.total_files = 1000;
        }
    }

    let duration = start.elapsed();
    println!("100回のページ移動操作: {:?}", duration);

    assert!(duration.as_millis() < 10);
}

#[test]
fn test_app_initialization() {
    let state = AppState::new();
    assert!(!state.has_files());
    assert_eq!(state.current_file_index, 0);
    assert_eq!(state.total_files, 0);
}

#[test]
fn test_title_without_files() {
    let state = AppState::new();
    assert_eq!(AppView::window_title(&state), "Saten - 画像ビューア");
}

#[test]
fn test_title_with_files() {
    let mut state = AppState::new();
    let member = MemberFile {
        filepath: "p1.png".to_string(),
        filename: "p1.png".to_string(),
        offset: 0,
        size: 1,
        fsize: 1,
        ctype: CompressionType::Uncompress,
    };
    let member2 = MemberFile { filepath: "p2.png".to_string(), ..member.clone() };
    state.set_archive_files(vec![member, member2]);
    assert_eq!(AppView::window_title(&state), "Saten - 画像ビューア - 1 / 2 ファイル");
}

#[test]
fn test_page_info_string() {
    let mut state = AppState::new();
    state.total_files = 10;
    assert_eq!(PageManager::get_page_info_string(&state), "1-2 / 10");
    state.set_display_mode(DisplayMode::Single);
    assert_eq!(PageManager::get_page_info_string(&state), "1 / 10");
    state.current_file_index = 9;
    assert_eq!(PageManager::get_page_info_string(&state), "10 / 10");
}

#[test]
fn test_image_info_text() {
    let mut state = AppState::new();
    let member = MemberFile {
        filepath: "a.jpg".to_string(),
        filename: "a.jpg".to_string(),
        offset: 0,
        size: 100,
        fsize: 123,
        ctype: CompressionType::Uncompress,
    };
    state.set_archive_files(vec![member]);
    let text = saten::view::image_view::ImageView::get_image_info_text(&state, 0);
    assert_eq!(text, "ファイル: a.jpg\nサイズ: 123 bytes\n圧縮: Uncompress");
    let missing = saten::view::image_view::ImageView::get_image_info_text(&state, 5);
    assert_eq!(missing, "画像情報が取得できません");
}

#[test]
fn test_goto_page_double_rounds_down() {
    let mut state = AppState::new();
    state.total_files = 10;
    PageManager::goto_page(&mut state, 5);
    assert_eq!(state.current_file_index, 4);
    PageManager::goto_page(&mut state, 99);
    assert_eq!(state.current_file_index, 4);
}

#[test]
fn test_image_file_filter() {
    assert!(FileHandler::is_supported_file("comics.CBZ"));
    assert!(!FileHandler::is_supported_file("notes.txt"));
    assert!(FileHandler::is_image_file("page01.JPG"));
    assert!(!FileHandler::is_image_file("readme.nfo"));

    let files = vec![
        MemberFile {
            filepath: "a.jpg".to_string(),
            filename: "a.jpg".to_string(),
            offset: 0,
            size: 1,
            fsize: 1,
            ctype: CompressionType::Uncompress,
        },
        MemberFile {
            filepath: "b.txt".to_string(),
            filename: "b.txt".to_string(),
            offset: 1,
            size: 1,
            fsize: 1,
            ctype: CompressionType::Uncompress,
        },
    ];
    let images = FileHandler::filter_image_files(files);
    assert_eq!(images.len(), 1);
    assert_eq!(images[0].filename, "a.jpg");
}
