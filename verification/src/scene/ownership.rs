//! Who frees a scene, and how.
//!
//! The import engine allocates every scene and has two ways of freeing one:
//! one for the scenes that an import gave, and one for the copies that it
//! made on request. A [`SceneHandle`] pairs what identifies a scene with the
//! way in which it came to be, and so with the way to free it. A handle
//! cannot be duplicated: whoever holds it is the one owner of the scene, and
//! giving it up with [`SceneHandle::release`] says which call frees the
//! scene.

use vstd::prelude::*;

verus! {

/// How a scene came to be.
#[derive(Clone, Copy, Debug, PartialEq, Eq, Structural)]
pub enum SceneKind {
    /// Given by an import; not to be changed in place.
    Const,
    /// Made as a copy of another scene; free to be changed.
    Mutable,
}

/// The call that frees a scene.
#[derive(Clone, Copy, Debug, PartialEq, Eq, Structural)]
pub enum ReleaseCall {
    /// The call that releases an import.
    ReleaseImport,
    /// The call that frees a copied scene.
    FreeScene,
}

/// Why re-running the post-processing on a scene gave no scene.
#[derive(Clone, Copy, Debug, PartialEq, Eq, Structural)]
pub enum PostProcessError {
    /// The engine failed, and freed the scene itself on the way: the scene
    /// is gone and must not be freed again.
    SceneReleased,
}

/// The message of [`PostProcessError::SceneReleased`].
pub const POSTPROCESSING_FAILED: &'static str =
    "apply_postprocessing failed, see output log for errors.";

impl PostProcessError {
    /// A message for the error.
    pub fn message(&self) -> (r: &'static str)
        ensures
            r@ == POSTPROCESSING_FAILED@,
    {
        POSTPROCESSING_FAILED
    }
}

/// The call that frees a scene of the given kind.
pub open spec fn release_call_of(kind: SceneKind) -> ReleaseCall {
    match kind {
        SceneKind::Const => ReleaseCall::ReleaseImport,
        SceneKind::Mutable => ReleaseCall::FreeScene,
    }
}

/// The one owner of a scene. `H` is whatever identifies the scene to the
/// engine.
pub struct SceneHandle<H> {
    raw: H,
    kind: SceneKind,
}

impl<H> SceneHandle<H> {
    /// What identifies the scene to the engine.
    pub closed spec fn spec_raw(&self) -> H {
        self.raw
    }

    /// How the scene came to be.
    pub closed spec fn spec_kind(&self) -> SceneKind {
        self.kind
    }

    /// Takes ownership of a scene that an import gave.
    pub fn imported(raw: H) -> (r: SceneHandle<H>)
        ensures
            r.spec_raw() == raw,
            r.spec_kind() == SceneKind::Const,
    {
        SceneHandle { raw, kind: SceneKind::Const }
    }

    /// Takes ownership of a scene that was made as a copy.
    pub fn copied(raw: H) -> (r: SceneHandle<H>)
        ensures
            r.spec_raw() == raw,
            r.spec_kind() == SceneKind::Mutable,
    {
        SceneHandle { raw, kind: SceneKind::Mutable }
    }

    /// Takes ownership of the copy `copy` that the engine made of this
    /// scene. The copy is owned apart from this scene: this handle is left
    /// as it is, and each of the two scenes is freed by its own call.
    pub fn owner_of_copy(&self, copy: H) -> (r: SceneHandle<H>)
        ensures
            r.spec_raw() == copy,
            r.spec_kind() == SceneKind::Mutable,
    {
        Self::copied(copy)
    }

    /// What identifies the scene to the engine.
    pub fn raw(&self) -> (r: &H)
        ensures
            *r == self.spec_raw(),
    {
        &self.raw
    }

    /// How the scene came to be.
    pub fn kind(&self) -> (r: SceneKind)
        ensures
            r == self.spec_kind(),
    {
        self.kind
    }

    /// Whether the scene may be changed in place.
    pub fn is_mutable(&self) -> (r: bool)
        ensures
            r == (self.spec_kind() == SceneKind::Mutable),
    {
        match self.kind {
            SceneKind::Mutable => true,
            SceneKind::Const => false,
        }
    }

    /// A scene that an import gave and a copy that was made of it are freed
    /// apart, each by its own call.
    pub proof fn lemma_copy_is_freed_apart(source: SceneHandle<H>, copy: SceneHandle<H>)
        requires
            source.spec_kind() == SceneKind::Const,
            copy.spec_kind() == SceneKind::Mutable,
        ensures
            release_call_of(source.spec_kind()) == ReleaseCall::ReleaseImport,
            release_call_of(copy.spec_kind()) == ReleaseCall::FreeScene,
    {
    }

    /// Gives up the scene: returns what identifies it, and the call that is
    /// to free it.
    pub fn release(self) -> (r: (H, ReleaseCall))
        ensures
            r.0 == self.spec_raw(),
            r.1 == release_call_of(self.spec_kind()),
    {
        let call = match self.kind {
            SceneKind::Const => ReleaseCall::ReleaseImport,
            SceneKind::Mutable => ReleaseCall::FreeScene,
        };
        (self.raw, call)
    }

    /// Decides who owns the scene after the engine re-ran the
    /// post-processing on it. The engine works on the scene in place. If it
    /// succeeded, the scene is the one that went in, owned as before. If it
    /// failed, it has freed the scene: the handle is dropped without a call
    /// to free anything, and the error says that the scene is gone.
    pub fn after_postprocessing(self, succeeded: bool) -> (r: Result<SceneHandle<H>, PostProcessError>)
        ensures
            r == (if succeeded {
                Ok::<SceneHandle<H>, PostProcessError>(self)
            } else {
                Err::<SceneHandle<H>, PostProcessError>(PostProcessError::SceneReleased)
            }),
    {
        if succeeded {
            Ok(self)
        } else {
            Err(PostProcessError::SceneReleased)
        }
    }
}

} // verus!
