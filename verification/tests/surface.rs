use flatland::surface::{
    size_or_default, step_params, window_name, CoreSurface, TextureAction, DEFAULT_SURFACE_SIZE,
};

#[test]
fn unnamed_window_is_unknown() {
    assert_eq!(window_name(None), "Unknown");
    assert_eq!(window_name(Some("Terminal")), "Terminal");
    assert_eq!(window_name(Some("")), "");
}

#[test]
fn size_defaults_to_512() {
    assert_eq!(DEFAULT_SURFACE_SIZE, 512);
    assert_eq!(size_or_default(None), (512, 512));
    assert_eq!(size_or_default(Some((640, 480))), (640, 480));
}

#[test]
fn step_uses_title_and_size() {
    assert_eq!(step_params(Some("Editor"), Some((1024, 768))), ("Editor", (1024, 768)));
    assert_eq!(step_params(None, None), ("Unknown", (512, 512)));
}

#[test]
fn first_update_creates_texture_then_model() {
    let mut s = CoreSurface::new();
    assert_eq!(s, CoreSurface { has_texture: false, has_model: false });
    let steps = s.update_tex(None, None);
    assert_eq!(steps, vec![TextureAction::CreateTexture, TextureAction::CreateModel]);
    assert_eq!(s, CoreSurface { has_texture: true, has_model: true });
}

#[test]
fn later_updates_only_bind() {
    let mut s = CoreSurface::new();
    let steps = s.update_tex(Some(7), Some((300, 200)));
    assert_eq!(
        steps,
        vec![
            TextureAction::CreateTexture,
            TextureAction::CreateModel,
            TextureAction::SetNativeTexture { tex_id: 7, width: 300, height: 200 },
        ]
    );
    let steps = s.update_tex(Some(9), None);
    assert_eq!(steps, vec![TextureAction::SetNativeTexture { tex_id: 9, width: 512, height: 512 }]);
    assert_eq!(s.update_tex(None, Some((1, 1))), vec![]);
}

#[test]
fn negative_size_is_reinterpreted() {
    let mut s = CoreSurface { has_texture: true, has_model: true };
    let steps = s.update_tex(Some(1), Some((-1, 2)));
    assert_eq!(
        steps,
        vec![TextureAction::SetNativeTexture { tex_id: 1, width: u32::MAX, height: 2 }]
    );
}

#[test]
fn missing_model_only() {
    let mut s = CoreSurface { has_texture: true, has_model: false };
    assert_eq!(s.update_tex(None, None), vec![TextureAction::CreateModel]);
}
