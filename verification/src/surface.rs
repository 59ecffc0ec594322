//! Decision logic of the compositor's surfaces.
//!
//! A Wayland toplevel is shown as a panel in the 3D scene. Each frame the
//! compositor reads the surface's title and size, falling back to defaults
//! where the client has not set them, and keeps a scene texture and a panel
//! model per surface, created lazily on first use, into which the client's
//! GPU texture is bound. The GPU and scene objects belong to the graphics
//! runtime; this module decides what is shown and which of them to create
//! or update, and the caller carries that out.
use vstd::prelude::*;

verus! {

/// Side length, in pixels, assumed for a surface whose size is not known yet.
pub const DEFAULT_SURFACE_SIZE: i32 = 512;

/// The size reported for a surface, or the default square where none is known.
pub open spec fn spec_size_or_default(size: Option<(i32, i32)>) -> (i32, i32) {
    match size {
        Some(s) => s,
        None => (DEFAULT_SURFACE_SIZE, DEFAULT_SURFACE_SIZE),
    }
}

/// The size of a surface in pixels: the one reported, or 512 by 512 where the
/// surface has none yet.
pub fn size_or_default(size: Option<(i32, i32)>) -> (r: (i32, i32))
    ensures
        r == spec_size_or_default(size),
        size.is_some() ==> r == size.unwrap(),
        size.is_none() ==> r == (512i32, 512i32),
{
    match size {
        Some(s) => s,
        None => (DEFAULT_SURFACE_SIZE, DEFAULT_SURFACE_SIZE),
    }
}

/// The name shown on a toplevel's window: its title, or "Unknown" where the
/// client has set none.
pub fn window_name<'a>(title: Option<&'a str>) -> (r: &'a str)
    ensures
        title.is_some() ==> r@ == title.unwrap()@,
        title.is_none() ==> r@ == "Unknown"@,
{
    match title {
        Some(t) => t,
        None => "Unknown",
    }
}

/// What one frame of a toplevel draws: the window name and the surface size
/// in pixels, from the title and the surface size that the client set.
pub fn step_params<'a>(title: Option<&'a str>, surface_size: Option<(i32, i32)>) -> (r: (
    &'a str,
    (i32, i32),
))
    ensures
        title.is_some() ==> r.0@ == title.unwrap()@,
        title.is_none() ==> r.0@ == "Unknown"@,
        r.1 == spec_size_or_default(surface_size),
        surface_size.is_some() ==> r.1 == surface_size.unwrap(),
        surface_size.is_none() ==> r.1 == (512i32, 512i32),
{
    (window_name(title), size_or_default(surface_size))
}

/// A step of bringing a surface's scene objects up to date.
#[derive(Clone, Copy, Debug, PartialEq, Eq, Structural)]
pub enum TextureAction {
    /// Create the surface's scene texture.
    CreateTexture,
    /// Create the panel model whose material shows the scene texture.
    CreateModel,
    /// Point the scene texture at the client's GPU texture `tex_id`, of the
    /// given size in pixels.
    SetNativeTexture { tex_id: usize, width: u32, height: u32 },
}

/// Which of a surface's scene objects exist.
#[derive(Clone, Copy, Debug, PartialEq, Eq, Structural)]
pub struct CoreSurface {
    pub has_texture: bool,
    pub has_model: bool,
}

/// The steps that `update_tex` asks for: the texture and then the model,
/// each only where it does not exist yet, and then the binding of the
/// client's texture where the client has one. A size is cast to `u32` as a
/// two's-complement reinterpretation, as the graphics call takes it.
pub open spec fn spec_update_tex(
    s: CoreSurface,
    client_tex: Option<u32>,
    buffer_size: Option<(i32, i32)>,
) -> Seq<TextureAction> {
    let size = spec_size_or_default(buffer_size);
    (if s.has_texture {
        Seq::empty()
    } else {
        seq![TextureAction::CreateTexture]
    }) + (if s.has_model {
        Seq::empty()
    } else {
        seq![TextureAction::CreateModel]
    }) + match client_tex {
        Some(id) => seq![
            TextureAction::SetNativeTexture {
                tex_id: id as usize,
                width: size.0 as u32,
                height: size.1 as u32,
            },
        ],
        None => Seq::empty(),
    }
}

impl CoreSurface {
    /// A surface for which no scene object exists yet.
    pub fn new() -> (r: CoreSurface)
        ensures
            r == (CoreSurface { has_texture: false, has_model: false }),
    {
        CoreSurface { has_texture: false, has_model: false }
    }

    /// Brings the surface's scene objects up to date for a frame in which the
    /// client's GPU texture is `client_tex` (none before the first commit)
    /// with buffer size `buffer_size`. Returns the steps, in order; once the
    /// caller has carried them out, both scene objects exist.
    pub fn update_tex(&mut self, client_tex: Option<u32>, buffer_size: Option<(i32, i32)>) -> (r:
        Vec<TextureAction>)
        ensures
            r@ == spec_update_tex(*old(self), client_tex, buffer_size),
            *final(self) == (CoreSurface { has_texture: true, has_model: true }),
    {
        let mut actions: Vec<TextureAction> = Vec::new();
        if !self.has_texture {
            actions.push(TextureAction::CreateTexture);
            self.has_texture = true;
        }
        if !self.has_model {
            actions.push(TextureAction::CreateModel);
            self.has_model = true;
        }
        match client_tex {
            Some(id) => {
                let size = size_or_default(buffer_size);
                actions.push(
                    TextureAction::SetNativeTexture {
                        tex_id: id as usize,
                        width: size.0 as u32,
                        height: size.1 as u32,
                    },
                );
            },
            None => {},
        }
        proof {
            let ghost s = *old(self);
            assert(actions@ =~= spec_update_tex(s, client_tex, buffer_size));
        }
        actions
    }
}

/// The scene objects are created once: after a first update, no later update
/// asks to create one again, whatever the client's texture and size.
pub proof fn lemma_objects_created_once(
    s: CoreSurface,
    tex1: Option<u32>,
    size1: Option<(i32, i32)>,
    tex2: Option<u32>,
    size2: Option<(i32, i32)>,
)
    ensures
        ({
            let after = CoreSurface { has_texture: true, has_model: true };
            let second = spec_update_tex(after, tex2, size2);
            &&& !second.contains(TextureAction::CreateTexture)
            &&& !second.contains(TextureAction::CreateModel)
        }),
{
    let after = CoreSurface { has_texture: true, has_model: true };
    let second = spec_update_tex(after, tex2, size2);
    if second.contains(TextureAction::CreateTexture) {
        let i = choose|i: int| 0 <= i < second.len() && second[i] == TextureAction::CreateTexture;
        assert(second[i] is SetNativeTexture);
    }
    if second.contains(TextureAction::CreateModel) {
        let i = choose|i: int| 0 <= i < second.len() && second[i] == TextureAction::CreateModel;
        assert(second[i] is SetNativeTexture);
    }
}

/// The model is never asked for before the texture it shows: in every update,
/// a texture creation, where there is one, comes before the model creation.
pub proof fn lemma_texture_before_model(
    s: CoreSurface,
    tex: Option<u32>,
    size: Option<(i32, i32)>,
    i: int,
    j: int,
)
    requires
        0 <= i < spec_update_tex(s, tex, size).len(),
        0 <= j < spec_update_tex(s, tex, size).len(),
        spec_update_tex(s, tex, size)[i] == TextureAction::CreateTexture,
        spec_update_tex(s, tex, size)[j] == TextureAction::CreateModel,
    ensures
        i < j,
{
}

/// The client's texture is bound in every frame in which there is one, and
/// only then, and it is the last step of the update.
pub proof fn lemma_binds_client_texture(
    s: CoreSurface,
    tex: Option<u32>,
    size: Option<(i32, i32)>,
)
    ensures
        ({
            let steps = spec_update_tex(s, tex, size);
            let full = spec_size_or_default(size);
            match tex {
                Some(id) => steps.len() > 0 && steps.last() == TextureAction::SetNativeTexture {
                    tex_id: id as usize,
                    width: full.0 as u32,
                    height: full.1 as u32,
                },
                None => forall|k: int| 0 <= k < steps.len() ==> !(#[trigger] steps[k] is SetNativeTexture),
            }
        }),
{
}

/// A known size is used as it is, width and height in their places; an
/// unknown one is 512 by 512.
pub proof fn lemma_size_or_default_effect(size: Option<(i32, i32)>, w: i32, h: i32)
    ensures
        spec_size_or_default(Some((w, h))) == (w, h),
        spec_size_or_default(None) == (512i32, 512i32),
{
}

/// The width and height with which the client's texture is bound: those of
/// its buffer, cast to `u32`, or 512 by 512 where the buffer size is unknown.
pub open spec fn bound_size(buffer_size: Option<(i32, i32)>) -> (u32, u32) {
    match buffer_size {
        Some((w, h)) => (w as u32, h as u32),
        None => (512u32, 512u32),
    }
}

/// Every update binds the client's texture exactly once where there is one,
/// as its last step, with the texture's id and the buffer's size (512 by 512
/// where unknown), and never where there is none. It creates the texture
/// exactly when it does not exist yet, and the model likewise, each at most
/// once, and asks for nothing else.
pub proof fn lemma_update_tex_steps(
    s: CoreSurface,
    client_tex: Option<u32>,
    buffer_size: Option<(i32, i32)>,
)
    ensures
        ({
            let steps = spec_update_tex(s, client_tex, buffer_size);
            let bind = |id: u32|
                TextureAction::SetNativeTexture {
                    tex_id: id as usize,
                    width: bound_size(buffer_size).0,
                    height: bound_size(buffer_size).1,
                };
            &&& steps.len() == (if s.has_texture { 0int } else { 1int }) + (if s.has_model {
                0int
            } else {
                1int
            }) + (if client_tex.is_some() { 1int } else { 0int })
            &&& forall|k: int|
                0 <= k < steps.len() && (#[trigger] steps[k] is SetNativeTexture) ==> k
                    == steps.len() - 1
            &&& client_tex.is_some() ==> steps.len() > 0 && steps.last() == bind(client_tex.unwrap())
            &&& client_tex.is_none() ==> forall|k: int|
                0 <= k < steps.len() ==> !(#[trigger] steps[k] is SetNativeTexture)
            &&& steps.contains(TextureAction::CreateTexture) <==> !s.has_texture
            &&& steps.contains(TextureAction::CreateModel) <==> !s.has_model
            &&& forall|i: int, j: int|
                0 <= i < j < steps.len() ==> !(steps[i] == TextureAction::CreateTexture && steps[j]
                    == TextureAction::CreateTexture) && !(steps[i] == TextureAction::CreateModel
                    && steps[j] == TextureAction::CreateModel)
        }),
{
    let steps = spec_update_tex(s, client_tex, buffer_size);
    if !s.has_texture {
        assert(steps[0] == TextureAction::CreateTexture);
    }
    if !s.has_model {
        let k = if s.has_texture { 0int } else { 1int };
        assert(steps[k] == TextureAction::CreateModel);
    }
}

/// Once both scene objects exist, an update is nothing but the binding of the
/// client's texture, at the buffer size (512 by 512 where unknown), or
/// nothing at all where the client has no texture.
pub proof fn lemma_update_tex_after_setup(
    client_tex: Option<u32>,
    buffer_size: Option<(i32, i32)>,
)
    ensures
        ({
            let steps = spec_update_tex(
                CoreSurface { has_texture: true, has_model: true },
                client_tex,
                buffer_size,
            );
            match client_tex {
                Some(id) => steps == seq![
                    TextureAction::SetNativeTexture {
                        tex_id: id as usize,
                        width: bound_size(buffer_size).0,
                        height: bound_size(buffer_size).1,
                    },
                ],
                None => steps == Seq::<TextureAction>::empty(),
            }
        }),
{
    let steps = spec_update_tex(
        CoreSurface { has_texture: true, has_model: true },
        client_tex,
        buffer_size,
    );
    match client_tex {
        Some(id) => {
            assert(steps =~= seq![
                TextureAction::SetNativeTexture {
                    tex_id: id as usize,
                    width: bound_size(buffer_size).0,
                    height: bound_size(buffer_size).1,
                },
            ]);
        },
        None => {
            assert(steps =~= Seq::<TextureAction>::empty());
        },
    }
}

} // verus!
