//! The render loop's store of uniforms: plain values by name, and by name
//! the handles of the textures that were uploaded.

use vstd::prelude::*;
use crate::command::{
    RenderCommand,
    StateUpdateCommand,
    TextureImage,
    TextureModel,
    UniformValue,
};
use crate::registry::{put, Registry};

verus! {

/// A texture that the renderer has to upload, and the name to keep its
/// handle under.
#[derive(Debug, PartialEq, Eq)]
pub struct TextureUpload {
    pub name: String,
    pub image: TextureImage,
}

/// Uniform values and texture handles by name, with a flag that asks for a
/// redraw. `H` is the renderer's handle of an uploaded texture.
pub struct UniformStore<H> {
    uniforms: Registry<UniformValue>,
    textures: Registry<H>,
    needs_redraw: bool,
}

/// What a `UniformStore` is to the contracts.
pub ghost struct StoreModel<H> {
    pub uniforms: Seq<(Seq<char>, UniformValue)>,
    pub textures: Seq<(Seq<char>, H)>,
    pub needs_redraw: bool,
}

impl<H> View for UniformStore<H> {
    type V = StoreModel<H>;

    closed spec fn view(&self) -> StoreModel<H> {
        StoreModel {
            uniforms: self.uniforms@,
            textures: self.textures@,
            needs_redraw: self.needs_redraw,
        }
    }
}

/// The store after a command: a plain value is stored under its name, a
/// texture leaves the stored entries as they are until its handle arrives.
/// Either way a redraw is due.
pub open spec fn applied<H>(store: StoreModel<H>, command: RenderCommand) -> StoreModel<H> {
    match command {
        RenderCommand::SetUniform(name, value) => StoreModel {
            uniforms: if value@ is RgbaTexture2D {
                store.uniforms
            } else {
                put(store.uniforms, name@, value)
            },
            textures: store.textures,
            needs_redraw: true,
        },
    }
}

/// The upload that a command asks for: the image of a texture command under
/// the command's name, nothing for any other command.
pub open spec fn upload_of(command: RenderCommand) -> Option<(Seq<char>, TextureModel)> {
    match command {
        RenderCommand::SetUniform(name, value) => match value {
            UniformValue::RgbaTexture2D(image) => Some((name@, image@)),
            _ => None,
        },
    }
}

/// What the window reported to the render loop.
#[derive(Debug, Clone, Copy, PartialEq, Eq, Structural)]
pub enum WindowEvent {
    CloseRequested,
    /// The new width and height.
    Resized(u32, u32),
    RedrawRequested,
    /// Any other event.
    Other,
}

/// What the render loop does about an event of the window.
#[derive(Debug, Clone, Copy, PartialEq, Eq)]
pub enum FrameAction {
    /// Leave the event loop.
    Exit,
    /// Resize the surface and send the notification to the scripting loop.
    Resize(StateUpdateCommand),
    /// Draw a frame.
    Draw,
    Nothing,
}

/// The action for an event: a frame is drawn only on a redraw request for
/// which a redraw is due.
pub open spec fn action_for<H>(store: StoreModel<H>, event: WindowEvent) -> FrameAction {
    match event {
        WindowEvent::CloseRequested => FrameAction::Exit,
        WindowEvent::Resized(width, height) => FrameAction::Resize(
            StateUpdateCommand::ScreenSizeChanged(width, height),
        ),
        WindowEvent::RedrawRequested => if store.needs_redraw {
            FrameAction::Draw
        } else {
            FrameAction::Nothing
        },
        WindowEvent::Other => FrameAction::Nothing,
    }
}

/// The store after an event: a resize makes a redraw due, a redraw request
/// is served. The stored entries stay.
pub open spec fn after_event<H>(store: StoreModel<H>, event: WindowEvent) -> StoreModel<H> {
    match event {
        WindowEvent::Resized(_, _) => StoreModel { needs_redraw: true, ..store },
        WindowEvent::RedrawRequested => StoreModel { needs_redraw: false, ..store },
        _ => store,
    }
}

impl<H> UniformStore<H> {
    /// A store that holds nothing and asks for the first frame.
    pub fn new() -> (store: Self)
        ensures
            store@.uniforms.len() == 0,
            store@.textures.len() == 0,
            store@.needs_redraw,
    {
        UniformStore { uniforms: Registry::new(), textures: Registry::new(), needs_redraw: true }
    }

    /// Applies one command. The store never rejects a value. A texture is
    /// handed back, once, for the renderer to upload.
    pub fn apply(&mut self, command: RenderCommand) -> (upload: Option<TextureUpload>)
        ensures
            final(self)@ == applied(old(self)@, command),
            match upload_of(command) {
                Some((name, image)) => upload is Some && upload->0.name@ == name
                    && upload->0.image@ == image,
                None => upload is None,
            },
    {
        self.needs_redraw = true;
        match command {
            RenderCommand::SetUniform(name, UniformValue::RgbaTexture2D(image)) => Some(
                TextureUpload { name, image },
            ),
            RenderCommand::SetUniform(name, value) => {
                self.uniforms.insert(name, value);
                None
            },
        }
    }

    /// One tick of the render loop: applies the command that was waiting,
    /// if one was. At most one command is taken per tick; with none the
    /// store stays as it is.
    pub fn process_incoming(&mut self, incoming: Option<RenderCommand>) -> (upload: Option<
        TextureUpload,
    >)
        ensures
            incoming is None ==> final(self)@ == old(self)@ && upload is None,
            incoming is Some ==> final(self)@ == applied(old(self)@, incoming->0),
            incoming is Some ==> match upload_of(incoming->0) {
                Some((name, image)) => upload is Some && upload->0.name@ == name
                    && upload->0.image@ == image,
                None => upload is None,
            },
    {
        match incoming {
            Some(command) => self.apply(command),
            None => None,
        }
    }

    /// Keeps the handle of an uploaded texture under its name, in place of
    /// an earlier one of that name.
    pub fn attach_texture(&mut self, name: String, handle: H)
        ensures
            final(self)@ == (StoreModel {
                textures: put(old(self)@.textures, name@, handle),
                ..old(self)@
            }),
    {
        self.textures.insert(name, handle);
    }

    /// The plain uniforms for the draw step, read-only.
    pub fn snapshot_for_draw(&self) -> (uniforms: &Registry<UniformValue>)
        ensures
            uniforms@ == self@.uniforms,
    {
        &self.uniforms
    }

    /// The texture handles for the draw step, read-only.
    pub fn textures_for_draw(&self) -> (textures: &Registry<H>)
        ensures
            textures@ == self@.textures,
    {
        &self.textures
    }

    /// Decides what the render loop does about an event of the window.
    pub fn window_event(&mut self, event: WindowEvent) -> (action: FrameAction)
        ensures
            action == action_for(old(self)@, event),
            final(self)@ == after_event(old(self)@, event),
    {
        match event {
            WindowEvent::CloseRequested => FrameAction::Exit,
            WindowEvent::Resized(width, height) => {
                self.needs_redraw = true;
                FrameAction::Resize(StateUpdateCommand::ScreenSizeChanged(width, height))
            },
            WindowEvent::RedrawRequested => {
                if self.take_redraw() {
                    FrameAction::Draw
                } else {
                    FrameAction::Nothing
                }
            },
            WindowEvent::Other => FrameAction::Nothing,
        }
    }

    /// Asks for a redraw.
    pub fn request_redraw(&mut self)
        ensures
            final(self)@ == (StoreModel { needs_redraw: true, ..old(self)@ }),
    {
        self.needs_redraw = true;
    }

    /// Says whether a redraw is due, and takes the request as served.
    pub fn take_redraw(&mut self) -> (due: bool)
        ensures
            due == old(self)@.needs_redraw,
            final(self)@ == (StoreModel { needs_redraw: false, ..old(self)@ }),
    {
        let due = self.needs_redraw;
        self.needs_redraw = false;
        due
    }
}

} // verus!
