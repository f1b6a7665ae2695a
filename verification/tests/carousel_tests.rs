use wallmint::carousel::{has_image_extension, is_image, select_images, Carousel};

fn paths(n: usize) -> Vec<String> {
    (0..n).map(|i| format!("/w/{i}.png")).collect()
}

#[test]
fn new_selects_first() {
    let c = Carousel::new(paths(3));
    assert_eq!(c.selected(), 0);
    assert_eq!(c.len(), 3);
    assert_eq!(c.selected_path().map(|p| p.as_str()), Some("/w/0.png"));
}

#[test]
fn next_wraps_around() {
    let mut c = Carousel::new(paths(3));
    c.next();
    assert_eq!(c.selected(), 1);
    assert_eq!(c.selected_path().map(|p| p.as_str()), Some("/w/1.png"));
    c.next();
    c.next();
    assert_eq!(c.selected(), 0);
    assert_eq!(c.selected_path().map(|p| p.as_str()), Some("/w/0.png"));
}

#[test]
fn prev_wraps_around() {
    let mut c = Carousel::new(paths(4));
    c.prev();
    assert_eq!(c.selected(), 3);
    assert_eq!(c.selected_path().map(|p| p.as_str()), Some("/w/3.png"));
    c.prev();
    assert_eq!(c.selected(), 2);
}

#[test]
fn prev_undoes_next() {
    let mut c = Carousel::new(paths(5));
    for _ in 0..7 {
        let before = c.selected();
        c.next();
        c.prev();
        assert_eq!(c.selected(), before);
        c.next();
    }
}

#[test]
fn full_cycle_returns() {
    let mut c = Carousel::new(paths(6));
    c.next();
    let start = c.selected();
    for _ in 0..6 {
        c.next();
    }
    assert_eq!(c.selected(), start);
}

#[test]
fn no_images_keeps_selection() {
    let mut c = Carousel::new(paths(0));
    c.next();
    c.prev();
    assert_eq!(c.selected(), 0);
    assert_eq!(c.selected_path(), None);
    assert_eq!(c.len(), 0);
}

#[test]
fn selected_path_follows_the_images_given() {
    // Only the images that loaded are handed over, so path i is image i.
    let mut c = Carousel::new(vec!["/w/a.png".to_string(), "/w/c.png".to_string()]);
    c.next();
    assert_eq!(c.selected(), 1);
    assert_eq!(c.selected_path().map(|p| p.as_str()), Some("/w/c.png"));
}

#[test]
fn visible_window_around_selection() {
    let mut c = Carousel::new(paths(7));
    assert_eq!(c.visible_indices(), [5, 6, 0, 1, 2]);
    c.next();
    c.next();
    c.next();
    assert_eq!(c.visible_indices(), [1, 2, 3, 4, 5]);
}

#[test]
fn visible_window_small_carousels() {
    assert_eq!(Carousel::new(paths(1)).visible_indices(), [0, 0, 0, 0, 0]);
    assert_eq!(Carousel::new(paths(2)).visible_indices(), [0, 1, 0, 1, 0]);
    assert_eq!(Carousel::new(paths(0)).visible_indices(), [0, 0, 0, 0, 0]);
}

#[test]
fn image_extensions() {
    assert!(is_image("/a/b.png"));
    assert!(is_image("/a/b.JPG"));
    assert!(is_image("b.jpeg"));
    assert!(is_image("b.WebP"));
    assert!(is_image("b.bmp"));
    assert!(!is_image("b.gif"));
    assert!(!is_image("b"));
    assert!(!is_image(".png"));
    assert!(!is_image("b.png.txt"));
}

#[test]
fn selects_image_files_sorted() {
    let entries = vec![
        ("/w/c.png".to_string(), true),
        ("/w/a.JPG".to_string(), true),
        ("/w/notes.txt".to_string(), true),
        ("/w/dir.png".to_string(), false),
        ("/w/B.webp".to_string(), true),
    ];
    assert_eq!(
        select_images(&entries),
        vec!["/w/B.webp".to_string(), "/w/a.JPG".to_string(), "/w/c.png".to_string()]
    );
}

#[test]
fn selects_nothing_from_nothing() {
    assert!(select_images(&Vec::new()).is_empty());
}

#[test]
fn image_extension_texts() {
    assert!(has_image_extension("PNG"));
    assert!(has_image_extension("jpeg"));
    assert!(!has_image_extension("png "));
    assert!(!has_image_extension(""));
}
