use pathtracing::surface::{choose_surface_format, is_preferred};

#[test]
fn prefers_first_srgb_colour_format_of_four_components() {
    let formats = vec![
        wgpu::TextureFormat::Rgba8Unorm,
        wgpu::TextureFormat::Depth32Float,
        wgpu::TextureFormat::Bgra8UnormSrgb,
        wgpu::TextureFormat::Rgba8UnormSrgb,
    ];
    assert_eq!(choose_surface_format(&formats), 2);
}

#[test]
fn takes_the_first_format_where_it_is_preferred() {
    let formats = vec![wgpu::TextureFormat::Rgba8UnormSrgb, wgpu::TextureFormat::Bgra8UnormSrgb];
    assert_eq!(choose_surface_format(&formats), 0);
}

#[test]
fn falls_back_to_first_format_when_none_is_preferred() {
    let formats = vec![
        wgpu::TextureFormat::Rgba16Float,
        wgpu::TextureFormat::Rgba8Unorm,
        wgpu::TextureFormat::Etc2Rgb8UnormSrgb,
    ];
    assert_eq!(choose_surface_format(&formats), 0);
}

#[test]
fn an_srgb_format_of_three_components_is_passed_over() {
    let formats = vec![wgpu::TextureFormat::Etc2Rgb8UnormSrgb, wgpu::TextureFormat::Bgra8UnormSrgb];
    assert_eq!(choose_surface_format(&formats), 1);
}

#[test]
fn a_linear_format_of_four_components_is_passed_over() {
    let formats = vec![wgpu::TextureFormat::Bgra8Unorm, wgpu::TextureFormat::Bgra8UnormSrgb];
    assert_eq!(choose_surface_format(&formats), 1);
}

#[test]
fn a_single_format_is_chosen_whatever_it_is() {
    assert_eq!(choose_surface_format(&vec![wgpu::TextureFormat::Depth24PlusStencil8]), 0);
}

#[test]
fn preference_needs_all_three_properties() {
    assert!(is_preferred(true, true, 4));
    assert!(!is_preferred(false, true, 4));
    assert!(!is_preferred(true, false, 4));
    assert!(!is_preferred(true, true, 3));
    assert!(!is_preferred(true, true, 5));
    assert!(!is_preferred(false, false, 0));
}
