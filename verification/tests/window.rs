use grin_gui::gui::window::{
    window_icon, window_settings, Platform, Renderer, WindowIcon, WindowSettings,
};

fn one_pixel_ico(blue: u8, green: u8, red: u8, alpha: u8) -> Vec<u8> {
    let mut bytes = vec![
        0, 0, 1, 0, 1, 0, // directory: icon, one picture
        1, 1, 0, 0, 1, 0, 32, 0, // 1 x 1, one plane, 32 bits
        48, 0, 0, 0, 22, 0, 0, 0, // 48 bytes at offset 22
        40, 0, 0, 0, // header of 40 bytes
        1, 0, 0, 0, // width
        2, 0, 0, 0, // height, doubled for the mask
        1, 0, 32, 0, // one plane, 32 bits
        0, 0, 0, 0, 0, 0, 0, 0, 0, 0, 0, 0, 0, 0, 0, 0, 0, 0, 0, 0, 0, 0, 0, 0,
    ];
    bytes.extend_from_slice(&[blue, green, red, alpha]);
    bytes.extend_from_slice(&[0, 0, 0, 0]);
    bytes
}

#[test]
fn window_opens_900_by_620_unless_configured() {
    let settings = window_settings(Platform::Linux, Renderer::Wgpu, None, None);
    assert_eq!(settings.size, (900, 620));
    let settings = window_settings(Platform::Linux, Renderer::Wgpu, Some((1280, 720)), None);
    assert_eq!(settings.size, (1280, 720));
}

#[test]
fn linux_window_has_no_minimum_size() {
    assert_eq!(
        window_settings(Platform::Linux, Renderer::Wgpu, None, None),
        WindowSettings {
            size: (900, 620),
            min_size: None,
            exit_on_close_request: true,
            antialiasing: true,
        }
    );
}

#[test]
fn windows_window_stays_in_the_tray_on_close() {
    assert_eq!(
        window_settings(Platform::Windows, Renderer::Wgpu, Some((800, 600)), Some(false)),
        WindowSettings {
            size: (800, 600),
            min_size: Some((600, 300)),
            exit_on_close_request: false,
            antialiasing: false,
        }
    );
}

#[test]
fn other_platforms_bound_the_size_and_exit_on_close() {
    assert_eq!(
        window_settings(Platform::Other, Renderer::OpenGl, None, None),
        WindowSettings {
            size: (900, 620),
            min_size: Some((600, 300)),
            exit_on_close_request: true,
            antialiasing: false,
        }
    );
}

#[test]
fn antialiasing_follows_the_command_line_first() {
    for platform in [Platform::Windows, Platform::Linux, Platform::Other] {
        assert!(window_settings(platform, Renderer::OpenGl, None, Some(true)).antialiasing);
        assert!(!window_settings(platform, Renderer::Wgpu, None, Some(false)).antialiasing);
        assert!(window_settings(platform, Renderer::Wgpu, None, None).antialiasing);
        assert!(!window_settings(platform, Renderer::OpenGl, None, None).antialiasing);
    }
}

#[test]
fn icon_needs_four_bytes_for_each_pixel() {
    let icon = WindowIcon::from_rgba(vec![1, 2, 3, 4, 5, 6, 7, 8], 2, 1).unwrap();
    assert_eq!(icon.width(), 2);
    assert_eq!(icon.height(), 1);
    assert_eq!(icon.rgba(), &vec![1, 2, 3, 4, 5, 6, 7, 8]);
    assert_eq!(icon.into_rgba(), (vec![1, 2, 3, 4, 5, 6, 7, 8], 2, 1));
    assert!(WindowIcon::from_rgba(vec![1, 2, 3, 4, 5, 6, 7, 8], 1, 1).is_none());
    assert!(WindowIcon::from_rgba(vec![1, 2, 3, 4, 5, 6, 7], 2, 1).is_none());
    assert!(WindowIcon::from_rgba(vec![1, 2, 3], 1, 1).is_none());
    assert!(WindowIcon::from_rgba(vec![], 1, 1).is_none());
}

#[test]
fn empty_icon_is_an_icon() {
    let icon = WindowIcon::from_rgba(vec![], 0, 7).unwrap();
    assert_eq!(icon.into_rgba(), (vec![], 0, 7));
    assert!(WindowIcon::from_rgba(vec![0, 0, 0, 0], 0, 0).is_none());
}

#[test]
fn icon_sizes_beyond_32_bits_do_not_wrap() {
    assert!(WindowIcon::from_rgba(vec![], 65536, 65536).is_none());
    assert!(WindowIcon::from_rgba(vec![0; 4], 4294967295, 4294967295).is_none());
}

#[test]
fn decoded_picture_becomes_the_icon() {
    assert!(WindowIcon::from_decoded(None).is_none());
    assert!(WindowIcon::from_decoded(Some((vec![0; 5], 1, 1))).is_none());
    let icon = WindowIcon::from_decoded(Some((vec![9, 8, 7, 6], 1, 1))).unwrap();
    assert_eq!(icon.into_rgba(), (vec![9, 8, 7, 6], 1, 1));
}

#[test]
fn window_icon_decodes_an_ico_file() {
    let icon = window_icon(&one_pixel_ico(0x33, 0x22, 0x11, 0xff)).unwrap();
    assert_eq!(icon.width(), 1);
    assert_eq!(icon.height(), 1);
    assert_eq!(icon.rgba(), &vec![0x11, 0x22, 0x33, 0xff]);
}

#[test]
fn window_icon_depends_on_the_bytes() {
    let first = window_icon(&one_pixel_ico(1, 2, 3, 255)).unwrap();
    let second = window_icon(&one_pixel_ico(4, 5, 6, 128)).unwrap();
    assert_eq!(first.into_rgba(), (vec![3, 2, 1, 255], 1, 1));
    assert_eq!(second.into_rgba(), (vec![6, 5, 4, 128], 1, 1));
}

#[test]
fn window_icon_of_bytes_that_are_no_ico_file_is_none() {
    assert!(window_icon(&[]).is_none());
    assert!(window_icon(&[0, 0, 1, 0]).is_none());
    assert!(window_icon(b"this is not an icon at all").is_none());
    let mut cut = one_pixel_ico(1, 2, 3, 4);
    cut.truncate(40);
    assert!(window_icon(&cut).is_none());
}
