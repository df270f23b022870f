//! The library's errors: what a caller got wrong, what the runtime reported
//! inconsistently, and what a callback did.

use vstd::prelude::*;

verus! {

/// Every error the projection reports.
#[derive(Clone, Copy, Debug, PartialEq, Eq, Structural)]
pub enum CnaError {
    /// The caller's request is not one XNA accepts.
    InvalidInput(InputError),
    /// The native runtime answered something the projection cannot trust.
    Native(NativeFault),
    /// A caller's callback panicked and was contained.
    Callback(CallbackFault),
    /// The runtime offers no route for the request at all.
    UnsupportedRuntime(Unsupported),
}

/// What a callback did that the projection contained.
#[derive(Clone, Copy, Debug, PartialEq, Eq, Structural)]
pub enum CallbackFault {
    /// An event handler panicked before the native boundary.
    EventHandlerPanicked,
    /// A gamer-services completion callback panicked.
    CompletionCallbackPanicked,
    /// A `GraphicsDevice.DeviceResetting` handler panicked.
    DeviceResettingHandlerPanicked,
    /// A `GraphicsDevice.DeviceReset` handler panicked.
    DeviceResetHandlerPanicked,
}

/// A route the runtime does not offer.
#[derive(Clone, Copy, Debug, PartialEq, Eq, Structural)]
pub enum Unsupported {
    /// Only the game-owned graphics device exists.
    IndependentGraphicsDevice,
    /// A bound texture slot names no handle the runtime can hand back.
    TextureWithoutHandle,
    /// A bound texture cannot be rebuilt from its native handle alone.
    TextureNotReconstructible,
    /// Only the color target can be cleared; depth and stencil clears have
    /// no route.
    DepthStencilClear,
    /// Only the whole back buffer can be presented, to the current window.
    PartialPresent,
    /// The game-owned graphics device cannot be disposed on its own.
    GraphicsDeviceDispose,
    /// The runtime reports an effect texture that was not assigned through
    /// the projection.
    EffectTextureNotAssigned,
}

/// The native result category a fault carries.
#[derive(Clone, Copy, Debug, PartialEq, Eq, Structural)]
pub enum NativeCode {
    Internal,
    InvalidState,
    Overflow,
}

/// An answer of the native runtime that contradicts what was asked or what
/// the projection knows.
#[derive(Clone, Copy, Debug, PartialEq, Eq, Structural)]
pub enum NativeFault {
    InconsistentVertexBufferMetadata,
    InconsistentIndexBufferMetadata,
    InconsistentIndexReadbackCount,
    InconsistentVertexBindingCount,
    InconsistentFirstVertexBuffer,
    VertexBindingsChangedOutside,
    VertexBindingIdentityDiffers,
    IndexBindingChangedOutside,
    RenderTargetBindingsChangedOutside,
    UnknownGraphicsDeviceStatus,
    UnknownGraphicsProfile,
    AdapterIndexOutsideSet,
    EffectTextureChangedOutside,
    UnknownEffectParameterClass,
    UnknownEffectParameterType,
    InvalidBlendState,
    InvalidDepthStencilState,
    InvalidRasterizerState,
    InvalidSamplerState,
    InvalidPresentationParameters,
    UnknownDisplayModeFormat,
    UnknownCurrentDisplayModeFormat,
    EffectCollectionTooLarge,
    EffectCountExceedsInt32,
    EffectLookupDisagrees,
    CurrentTechniqueMissing,
    ReflectionClonedPartially,
    UnknownSelectedSurfaceFormat,
    UnknownSelectedDepthFormat,
    NoDefaultAdapter,
}

impl NativeFault {
    /// The result category the fault is reported with.
    pub fn code(&self) -> (r: NativeCode)
        ensures
            r == (match self {
                NativeFault::VertexBindingsChangedOutside | NativeFault::VertexBindingIdentityDiffers
                | NativeFault::IndexBindingChangedOutside | NativeFault::RenderTargetBindingsChangedOutside
                | NativeFault::AdapterIndexOutsideSet | NativeFault::NoDefaultAdapter => NativeCode::InvalidState,
                NativeFault::EffectCollectionTooLarge | NativeFault::EffectCountExceedsInt32 => NativeCode::Overflow,
                _ => NativeCode::Internal,
            }),
    {
        match self {
            NativeFault::VertexBindingsChangedOutside | NativeFault::VertexBindingIdentityDiffers
            | NativeFault::IndexBindingChangedOutside | NativeFault::RenderTargetBindingsChangedOutside
                | NativeFault::AdapterIndexOutsideSet | NativeFault::NoDefaultAdapter => NativeCode::InvalidState,
            NativeFault::EffectCollectionTooLarge | NativeFault::EffectCountExceedsInt32 => NativeCode::Overflow,
            _ => NativeCode::Internal,
        }
    }
}

/// Why a caller's request was refused.
#[derive(Clone, Copy, Debug, PartialEq, Eq, Structural)]
pub enum InputError {
    UnknownBufferUsage,
    InvalidSetDataOptions,
    OptionsRequireDynamicBuffer,
    VertexArrayTooLarge,
    IndexArrayTooLarge,
    NegativeStartIndex,
    NegativeElementCount,
    WindowOverflow,
    WindowExceedsSlice,
    NegativeVertexCount,
    NegativeIndexCount,
    NegativeBufferOffset,
    VertexDeclarationMismatch,
    VertexTransferSizeOverflow,
    VertexTransferRangeOverflow,
    VertexCapacityOverflow,
    VertexTransferExceedsCapacity,
    VertexOffsetWithUploadOptions,
    UploadOptionsNeedBuiltInVertex,
    IndexElementMismatch,
    IndexTransferSizeOverflow,
    IndexTransferRangeOverflow,
    IndexCapacityOverflow,
    IndexTransferExceedsCapacity,
    IndexOffsetWithUploadOptions,
    IndexReadbackWithOffset,
    UnsupportedIndexType,
    NegativeBindingOffsetOrFrequency,
    BindingOffsetExceedsCapacity,
    GraphicsDeviceDisposed,
    ResourceDisposed,
    DisposeWhileBound,
    GraphicsStateDisposed,
    GraphicsStateBoundElsewhere,
    AdapterCountTooLarge,
    AdapterOfAnotherDevice,
    AdapterIndexExceedsI32,
    ModelGraphNotLive,
    ModelNameEmpty,
    ModelHasNoBones,
    RootBoneOutOfRange,
    BoneParentOrder,
    TooManyBones,
    BoneNameNotFound,
    BoneIndexOutOfRange,
    EnumeratorDisposed,
    EnumeratorNotPositioned,
    EnumeratorPastEnd,
    GamerEnumeratorDisposed,
    DestinationTransformsTooSmall,
    SourceTransformsTooSmall,
    MeshResourcesOtherDevice,
    MeshPartRangeNegative,
    MeshParentBoneOutOfRange,
    IndexBufferOtherDevice,
    VertexBufferOtherDevice,
    RenderTargetOtherDevice,
    RenderTargetBoundTwice,
    RenderTargetShapeMismatch,
    RenderTargetCountTooLarge,
    MeshPartEffectOtherDevice,
    MeshNameNotFound,
    MeshIndexOutOfRange,
    MeshPartIndexOutOfRange,
    ModelEffectIndexOutOfRange,
    MeshPartNoVertexBuffer,
    MeshPartNoIndexBuffer,
    MeshPartNoEffect,
    EndCalledTwice,
    AsyncResultHasNoValue,
    AsyncResultOfOtherOperation,
    GamerIndexOutOfRange,
    SignedInGamerIndexOutOfRange,
    BeginCalledTwice,
    DrawOutsideBegin,
    EndOutsideBegin,
    TextureOfOtherDevice,
    EffectOfOtherDevice,
    DrawStringOutsideBegin,
    SpriteFontOfOtherDevice,
    DrawStringNotFinite,
    DrawDisposedTexture,
    EncodedTextureEmpty,
    TextureWidthExceedsI32,
    TextureHeightExceedsI32,
    TextureLevelCountExceedsI32,
    RendererNameTooLarge,
    NoActiveCallback,
    PrimitiveCountNotPositive,
    PrimitiveElementCountOverflows,
    StartVertexNegative,
    DrawRequiresVertexBuffer,
    VertexDrawRangeOverflows,
    VertexDrawRangeExceedsBuffer,
    MinVertexIndexNegative,
    IndexedDrawNeedsVertex,
    IndexedDrawNeedsVertexBuffer,
    IndexedVertexRangeExceedsBuffer,
    IndexedDrawNeedsIndexBuffer,
    IndexedDrawRangeOverflows,
    IndexedDrawRangeExceedsBuffer,
    InstanceCountNotPositive,
    VertexOffsetNegative,
    UserVertexRangeOverflows,
    UserVertexRangeExceedsSlice,
    UserDeclarationMismatch,
    IndexOffsetNegative,
    UserIndexRangeOverflows,
    UserIndexRangeExceedsSlice,
    UserIndexOutOfVertices,
    BackBufferWindowOverflows,
    BackBufferWindowExceedsSlice,
    BackBufferRectangleNegative,
    BackBufferRectangleOverflows,
    BackBufferRectangleExceeds,
    BackBufferDestinationTooLarge,
    VertexBindingCountTooLarge,
    RenderTargetBindingCountTooLarge,
    GamerObjectDisposed,
    TextTooLarge,
    TextNotUtf8,
    TimestampBeforeEpoch,
    TimestampOutsideTickRange,
    AchievementIndexOutOfRange,
    LeaderboardKeyTooLong,
    GamerArrayTooLarge,
    ButtonArrayTooLarge,
    TextTooLargeForRuntime,
    UnknownAvatarExpression,
    AvatarDescriptionTooLarge,
    BoneArrayTooLarge,
    EffectCodeEmpty,
    EffectViewDisposed,
    EffectArrayCountNegative,
    AnnotationDataTooLarge,
    EffectIndexNegative,
    EffectIndexOutOfRange,
    NoCurrentTechnique,
    TechniqueOfOtherEffect,
    RenderTargetRequestInvalid,
    RenderTargetCubeRequestInvalid,
    RenderTargetIdentityInvalid,
    RenderTargetFormatUnknown,
    RenderTargetDepthFormatUnknown,
    RenderTargetUsageUnknown,
    QueryBegunTwice,
    QueryNotBegun,
    QueryPixelCountActive,
    SlotIndexNegative,
    SamplerIndexOutside,
    TextureIndexOutside,
    FontCharacterNotUtf16,
    DefaultCharacterAbsent,
    FontTablesMismatch,
    FontValuesNotFinite,
    FontCountDisagrees,
    FontCharactersNotRoundTripped,
    FontGlyphsNotRoundTripped,
    FontTooManyCharacters,
    FontHasNoCharacters,
    FontTablesDisagreeWithCount,
    FontCharacterNotScalar,
    FontDefaultNotScalar,
    FontAtlasWithoutDevice,
    FontSpacingNotFinite,
    UnknownAvatarBodyType,
    UnknownAvatarRendererState,
    UnknownNotificationPosition,
    UnknownPlayerSlot,
    UnknownPresenceMode,
    UnknownPrivilegeSetting,
    UnknownGameDifficulty,
    UnknownControllerSensitivity,
    UnknownRacingCameraAngle,
    UnknownGamerZone,
    UnknownLeaderboardOutcome,
}

/// The text each refusal is reported with.
pub open spec fn input_error_text(e: InputError) -> &'static str {
    match e {
        InputError::UnknownBufferUsage => "buffer usage contains unknown flags",
        InputError::InvalidSetDataOptions => "set-data options contain an invalid combination",
        InputError::OptionsRequireDynamicBuffer => "Discard and NoOverwrite require a dynamic buffer",
        InputError::VertexArrayTooLarge => "vertex data array is too large",
        InputError::IndexArrayTooLarge => "index data array is too large",
        InputError::NegativeStartIndex => "start index must not be negative",
        InputError::NegativeElementCount => "element count must not be negative",
        InputError::WindowOverflow => "array window overflows",
        InputError::WindowExceedsSlice => "array window exceeds the supplied slice",
        InputError::NegativeVertexCount => "vertex count must not be negative",
        InputError::NegativeIndexCount => "index count must not be negative",
        InputError::NegativeBufferOffset => "buffer byte offset must not be negative",
        InputError::VertexDeclarationMismatch => "vertex data declaration and stride must match the buffer declaration",
        InputError::VertexTransferSizeOverflow => "vertex transfer size overflows",
        InputError::VertexTransferRangeOverflow => "vertex transfer range overflows",
        InputError::VertexCapacityOverflow => "vertex buffer capacity overflows",
        InputError::VertexTransferExceedsCapacity => "vertex transfer exceeds or misaligns the buffer capacity",
        InputError::VertexOffsetWithUploadOptions => "a vertex-buffer byte offset cannot be combined with Discard or NoOverwrite",
        InputError::UploadOptionsNeedBuiltInVertex => "Discard and NoOverwrite require a built-in XNA vertex layout",
        InputError::IndexElementMismatch => "index element type does not match the buffer",
        InputError::IndexTransferSizeOverflow => "index transfer size overflows",
        InputError::IndexTransferRangeOverflow => "index transfer range overflows",
        InputError::IndexCapacityOverflow => "index buffer capacity overflows",
        InputError::IndexTransferExceedsCapacity => "index transfer exceeds or misaligns the buffer capacity",
        InputError::IndexOffsetWithUploadOptions => "an index-buffer byte offset cannot be combined with Discard or NoOverwrite",
        InputError::IndexReadbackWithOffset => "index readback cannot represent a nonzero buffer offset",
        InputError::UnsupportedIndexType => "index TypeId must identify a 16-bit or 32-bit integer",
        InputError::NegativeBindingOffsetOrFrequency => "vertex offset and instance frequency must not be negative",
        InputError::BindingOffsetExceedsCapacity => "vertex offset exceeds the buffer capacity",
        InputError::GraphicsDeviceDisposed => "graphics device is disposed",
        InputError::ResourceDisposed => "graphics resource is disposed",
        InputError::DisposeWhileBound => "a native graphics resource cannot be disposed while it remains bound to the graphics device",
        InputError::GraphicsStateDisposed => "graphics state is disposed",
        InputError::GraphicsStateBoundElsewhere => "graphics state is already bound to a different device",
        InputError::AdapterCountTooLarge => "graphics-adapter count is too large",
        InputError::AdapterOfAnotherDevice => "graphics adapter belongs to another graphics device",
        InputError::AdapterIndexExceedsI32 => "graphics adapter index exceeds i32",
        InputError::ModelGraphNotLive => "model graph is no longer live",
        InputError::ModelNameEmpty => "model name must not be empty",
        InputError::ModelHasNoBones => "a model must contain at least one bone",
        InputError::RootBoneOutOfRange => "model root bone index is out of range",
        InputError::BoneParentOrder => "model bone parents must precede their children",
        InputError::TooManyBones => "model has too many bones",
        InputError::BoneNameNotFound => "model bone name was not found",
        InputError::BoneIndexOutOfRange => "model bone index is out of range",
        InputError::EnumeratorDisposed => "model enumerator is disposed",
        InputError::EnumeratorNotPositioned => "model enumerator is not positioned",
        InputError::EnumeratorPastEnd => "model enumerator is past the end",
        InputError::GamerEnumeratorDisposed => "the gamer collection enumerator is disposed",
        InputError::DestinationTransformsTooSmall => "destination bone transform slice is too small",
        InputError::SourceTransformsTooSmall => "source bone transform slice is too small",
        InputError::MeshResourcesOtherDevice => "model resources must belong to the model graphics device",
        InputError::MeshPartRangeNegative => "model mesh-part ranges must not be negative",
        InputError::MeshParentBoneOutOfRange => "model mesh parent bone index is out of range",
        InputError::IndexBufferOtherDevice => "index buffer belongs to a different graphics device",
        InputError::VertexBufferOtherDevice => "vertex buffer belongs to a different graphics device",
        InputError::RenderTargetOtherDevice => "render target belongs to another graphics device",
        InputError::RenderTargetBoundTwice => "the same render target cannot occupy multiple binding slots",
        InputError::RenderTargetShapeMismatch => "all render targets must have compatible dimensions and multisampling",
        InputError::RenderTargetCountTooLarge => "render-target binding count is too large",
        InputError::MeshPartEffectOtherDevice => "effect belongs to a different graphics device",
        InputError::MeshNameNotFound => "model mesh name was not found",
        InputError::MeshIndexOutOfRange => "model mesh index is out of range",
        InputError::MeshPartIndexOutOfRange => "model mesh-part index is out of range",
        InputError::ModelEffectIndexOutOfRange => "model effect index is out of range",
        InputError::MeshPartNoVertexBuffer => "model mesh part has no vertex buffer",
        InputError::MeshPartNoIndexBuffer => "model mesh part has no index buffer",
        InputError::MeshPartNoEffect => "model mesh part has no effect",
        InputError::EndCalledTwice => "a gamer-services End method cannot be called twice",
        InputError::AsyncResultHasNoValue => "the gamer-services asynchronous result has no value",
        InputError::AsyncResultOfOtherOperation => "the asynchronous result belongs to a different gamer-services operation",
        InputError::GamerIndexOutOfRange => "the gamer collection index is out of range",
        InputError::SignedInGamerIndexOutOfRange => "the signed-in gamer index is out of range",
        InputError::BeginCalledTwice => "SpriteBatch.Begin was called twice",
        InputError::DrawOutsideBegin => "SpriteBatch.Draw requires an active Begin/End interval",
        InputError::EndOutsideBegin => "SpriteBatch.End requires an active interval",
        InputError::TextureOfOtherDevice => "SpriteBatch and Texture2D belong to different graphics devices",
        InputError::EffectOfOtherDevice => "SpriteBatch Effect belongs to a different graphics device",
        InputError::DrawStringOutsideBegin => "SpriteBatch.DrawString requires an active Begin/End interval",
        InputError::SpriteFontOfOtherDevice => "SpriteBatch and SpriteFont belong to different graphics devices",
        InputError::DrawStringNotFinite => "SpriteBatch.DrawString transform values must be finite",
        InputError::DrawDisposedTexture => "cannot draw a disposed Texture2D",
        InputError::EncodedTextureEmpty => "encoded texture data must not be empty",
        InputError::TextureWidthExceedsI32 => "texture width exceeds i32",
        InputError::TextureHeightExceedsI32 => "texture height exceeds i32",
        InputError::TextureLevelCountExceedsI32 => "texture level count exceeds i32",
        InputError::RendererNameTooLarge => "renderer name is too large",
        InputError::NoActiveCallback => "graphics-device operations require an active game callback",
        InputError::PrimitiveCountNotPositive => "primitive count must be greater than zero",
        InputError::PrimitiveElementCountOverflows => "primitive element count overflows",
        InputError::StartVertexNegative => "start vertex must not be negative",
        InputError::DrawRequiresVertexBuffer => "DrawPrimitives requires a bound vertex buffer",
        InputError::VertexDrawRangeOverflows => "vertex draw range overflows",
        InputError::VertexDrawRangeExceedsBuffer => "vertex draw range exceeds the bound buffer",
        InputError::MinVertexIndexNegative => "minimum vertex index must not be negative",
        InputError::IndexedDrawNeedsVertex => "indexed draws require at least one vertex",
        InputError::IndexedDrawNeedsVertexBuffer => "indexed draws require a bound vertex buffer",
        InputError::IndexedVertexRangeExceedsBuffer => "indexed vertex range exceeds the bound vertex buffer",
        InputError::IndexedDrawNeedsIndexBuffer => "indexed draws require a bound index buffer",
        InputError::IndexedDrawRangeOverflows => "indexed draw range overflows",
        InputError::IndexedDrawRangeExceedsBuffer => "indexed draw range exceeds a bound buffer",
        InputError::InstanceCountNotPositive => "instance count must be greater than zero",
        InputError::VertexOffsetNegative => "vertex offset must not be negative",
        InputError::UserVertexRangeOverflows => "user vertex range overflows",
        InputError::UserVertexRangeExceedsSlice => "user vertex range exceeds the supplied slice",
        InputError::UserDeclarationMismatch => "vertex declaration does not match the safe VertexData encoding",
        InputError::IndexOffsetNegative => "index offset must not be negative",
        InputError::UserIndexRangeOverflows => "user index range overflows",
        InputError::UserIndexRangeExceedsSlice => "user index range exceeds the supplied slice",
        InputError::UserIndexOutOfVertices => "user index references a vertex outside numVertices",
        InputError::BackBufferWindowOverflows => "back-buffer destination range overflows",
        InputError::BackBufferWindowExceedsSlice => "back-buffer destination range exceeds the supplied slice",
        InputError::BackBufferRectangleNegative => "back-buffer source rectangle must not contain negative values",
        InputError::BackBufferRectangleOverflows => "back-buffer source rectangle overflows",
        InputError::BackBufferRectangleExceeds => "back-buffer source rectangle exceeds the back buffer",
        InputError::BackBufferDestinationTooLarge => "back-buffer destination is too large",
        InputError::VertexBindingCountTooLarge => "native vertex binding count is too large",
        InputError::RenderTargetBindingCountTooLarge => "render-target binding count is too large",
        InputError::GamerObjectDisposed => "the gamer-services object is disposed",
        InputError::TextTooLarge => "CNA text is too large",
        InputError::TextNotUtf8 => "CNA text is not valid UTF-8",
        InputError::TimestampBeforeEpoch => "the timestamp precedes the Unix epoch",
        InputError::TimestampOutsideTickRange => "the timestamp is outside CLR tick range",
        InputError::AchievementIndexOutOfRange => "the achievement collection index is out of range",
        InputError::LeaderboardKeyTooLong => "the leaderboard key exceeds CNA's identity capacity",
        InputError::GamerArrayTooLarge => "the gamer array is too large",
        InputError::ButtonArrayTooLarge => "the button array is too large",
        InputError::TextTooLargeForRuntime => "the text is too large for CNA",
        InputError::UnknownAvatarExpression => "CNA reported an avatar expression XNA does not declare",
        InputError::AvatarDescriptionTooLarge => "the avatar description is too large",
        InputError::BoneArrayTooLarge => "the bone array is too large",
        InputError::EffectCodeEmpty => "Effect bytecode cannot be empty",
        InputError::EffectViewDisposed => "effect child view is disposed",
        InputError::EffectArrayCountNegative => "effect array count cannot be negative",
        InputError::AnnotationDataTooLarge => "effect annotation data is too large",
        InputError::EffectIndexNegative => "effect collection index cannot be negative",
        InputError::EffectIndexOutOfRange => "effect collection index is out of range",
        InputError::NoCurrentTechnique => "Effect has no current technique",
        InputError::TechniqueOfOtherEffect => "effect technique belongs to a different Effect",
        InputError::RenderTargetRequestInvalid => "render-target dimensions must be positive and multisampling nonnegative",
        InputError::RenderTargetCubeRequestInvalid => "render-target size must be positive and multisampling nonnegative",
        InputError::RenderTargetIdentityInvalid => "native render-target identity or dimensions are invalid",
        InputError::RenderTargetFormatUnknown => "native render-target format is unknown",
        InputError::RenderTargetDepthFormatUnknown => "native depth format is unknown",
        InputError::RenderTargetUsageUnknown => "native render-target usage is unknown",
        InputError::QueryBegunTwice => "an occlusion query cannot be begun twice",
        InputError::QueryNotBegun => "an occlusion query must be begun before it can be ended",
        InputError::QueryPixelCountActive => "an active occlusion query has no completed pixel count",
        InputError::SlotIndexNegative => "collection index must not be negative",
        InputError::SamplerIndexOutside => "sampler index is outside the collection",
        InputError::TextureIndexOutside => "texture index is outside the collection",
        InputError::FontCharacterNotUtf16 => "SpriteFont characters must fit XNA's UTF-16 char representation",
        InputError::DefaultCharacterAbsent => "SpriteFont default character is absent from the character map",
        InputError::FontTablesMismatch => "SpriteFont glyph, crop, character and kerning tables must have the same nonzero length",
        InputError::FontValuesNotFinite => "SpriteFont spacing and kerning values must be finite",
        InputError::FontCountDisagrees => "native SpriteFont character count disagrees with its source table",
        InputError::FontCharactersNotRoundTripped => "native SpriteFont character table did not round-trip",
        InputError::FontGlyphsNotRoundTripped => "native SpriteFont glyph table did not round-trip",
        InputError::FontTooManyCharacters => "native SpriteFont reports too many characters",
        InputError::FontHasNoCharacters => "a SpriteFont with no characters cannot draw anything",
        InputError::FontTablesDisagreeWithCount => "native SpriteFont tables disagree with the count it reports",
        InputError::FontCharacterNotScalar => "native SpriteFont character is not a Unicode scalar value",
        InputError::FontDefaultNotScalar => "native SpriteFont default character is not a Unicode scalar value",
        InputError::FontAtlasWithoutDevice => "SpriteFont atlas has no graphics device",
        InputError::FontSpacingNotFinite => "SpriteFont spacing must be finite",
        InputError::UnknownAvatarBodyType => "CNA reported an avatar body type XNA does not declare",
        InputError::UnknownAvatarRendererState => "CNA reported an avatar renderer state XNA does not declare",
        InputError::UnknownNotificationPosition => "CNA reported a notification position XNA does not declare",
        InputError::UnknownPlayerSlot => "CNA reported a player slot XNA does not declare",
        InputError::UnknownPresenceMode => "CNA reported a presence mode XNA does not declare",
        InputError::UnknownPrivilegeSetting => "CNA reported a privilege setting XNA does not declare",
        InputError::UnknownGameDifficulty => "CNA reported a difficulty XNA does not declare",
        InputError::UnknownControllerSensitivity => "CNA reported a controller sensitivity XNA does not declare",
        InputError::UnknownRacingCameraAngle => "CNA reported a racing camera angle XNA does not declare",
        InputError::UnknownGamerZone => "CNA reported a gamer zone XNA does not declare",
        InputError::UnknownLeaderboardOutcome => "CNA reported a leaderboard outcome XNA does not declare",
    }
}

impl InputError {
    /// The text the error is reported with.
    pub fn message(&self) -> (r: &'static str)
        ensures
            r == input_error_text(*self),
    {
        match self {
            InputError::UnknownBufferUsage => "buffer usage contains unknown flags",
            InputError::InvalidSetDataOptions => "set-data options contain an invalid combination",
            InputError::OptionsRequireDynamicBuffer => "Discard and NoOverwrite require a dynamic buffer",
            InputError::VertexArrayTooLarge => "vertex data array is too large",
            InputError::IndexArrayTooLarge => "index data array is too large",
            InputError::NegativeStartIndex => "start index must not be negative",
            InputError::NegativeElementCount => "element count must not be negative",
            InputError::WindowOverflow => "array window overflows",
            InputError::WindowExceedsSlice => "array window exceeds the supplied slice",
            InputError::NegativeVertexCount => "vertex count must not be negative",
            InputError::NegativeIndexCount => "index count must not be negative",
            InputError::NegativeBufferOffset => "buffer byte offset must not be negative",
            InputError::VertexDeclarationMismatch => "vertex data declaration and stride must match the buffer declaration",
            InputError::VertexTransferSizeOverflow => "vertex transfer size overflows",
            InputError::VertexTransferRangeOverflow => "vertex transfer range overflows",
            InputError::VertexCapacityOverflow => "vertex buffer capacity overflows",
            InputError::VertexTransferExceedsCapacity => "vertex transfer exceeds or misaligns the buffer capacity",
            InputError::VertexOffsetWithUploadOptions => "a vertex-buffer byte offset cannot be combined with Discard or NoOverwrite",
            InputError::UploadOptionsNeedBuiltInVertex => "Discard and NoOverwrite require a built-in XNA vertex layout",
            InputError::IndexElementMismatch => "index element type does not match the buffer",
            InputError::IndexTransferSizeOverflow => "index transfer size overflows",
            InputError::IndexTransferRangeOverflow => "index transfer range overflows",
            InputError::IndexCapacityOverflow => "index buffer capacity overflows",
            InputError::IndexTransferExceedsCapacity => "index transfer exceeds or misaligns the buffer capacity",
            InputError::IndexOffsetWithUploadOptions => "an index-buffer byte offset cannot be combined with Discard or NoOverwrite",
            InputError::IndexReadbackWithOffset => "index readback cannot represent a nonzero buffer offset",
            InputError::UnsupportedIndexType => "index TypeId must identify a 16-bit or 32-bit integer",
            InputError::NegativeBindingOffsetOrFrequency => "vertex offset and instance frequency must not be negative",
            InputError::BindingOffsetExceedsCapacity => "vertex offset exceeds the buffer capacity",
            InputError::GraphicsDeviceDisposed => "graphics device is disposed",
            InputError::ResourceDisposed => "graphics resource is disposed",
            InputError::DisposeWhileBound => "a native graphics resource cannot be disposed while it remains bound to the graphics device",
            InputError::GraphicsStateDisposed => "graphics state is disposed",
            InputError::GraphicsStateBoundElsewhere => "graphics state is already bound to a different device",
            InputError::AdapterCountTooLarge => "graphics-adapter count is too large",
            InputError::AdapterOfAnotherDevice => "graphics adapter belongs to another graphics device",
            InputError::AdapterIndexExceedsI32 => "graphics adapter index exceeds i32",
            InputError::ModelGraphNotLive => "model graph is no longer live",
            InputError::ModelNameEmpty => "model name must not be empty",
            InputError::ModelHasNoBones => "a model must contain at least one bone",
            InputError::RootBoneOutOfRange => "model root bone index is out of range",
            InputError::BoneParentOrder => "model bone parents must precede their children",
            InputError::TooManyBones => "model has too many bones",
            InputError::BoneNameNotFound => "model bone name was not found",
            InputError::BoneIndexOutOfRange => "model bone index is out of range",
            InputError::EnumeratorDisposed => "model enumerator is disposed",
            InputError::EnumeratorNotPositioned => "model enumerator is not positioned",
            InputError::EnumeratorPastEnd => "model enumerator is past the end",
            InputError::GamerEnumeratorDisposed => "the gamer collection enumerator is disposed",
            InputError::DestinationTransformsTooSmall => "destination bone transform slice is too small",
            InputError::SourceTransformsTooSmall => "source bone transform slice is too small",
            InputError::MeshResourcesOtherDevice => "model resources must belong to the model graphics device",
            InputError::MeshPartRangeNegative => "model mesh-part ranges must not be negative",
            InputError::MeshParentBoneOutOfRange => "model mesh parent bone index is out of range",
            InputError::IndexBufferOtherDevice => "index buffer belongs to a different graphics device",
            InputError::VertexBufferOtherDevice => "vertex buffer belongs to a different graphics device",
            InputError::RenderTargetOtherDevice => "render target belongs to another graphics device",
            InputError::RenderTargetBoundTwice => "the same render target cannot occupy multiple binding slots",
            InputError::RenderTargetShapeMismatch => "all render targets must have compatible dimensions and multisampling",
            InputError::RenderTargetCountTooLarge => "render-target binding count is too large",
            InputError::MeshPartEffectOtherDevice => "effect belongs to a different graphics device",
            InputError::MeshNameNotFound => "model mesh name was not found",
            InputError::MeshIndexOutOfRange => "model mesh index is out of range",
            InputError::MeshPartIndexOutOfRange => "model mesh-part index is out of range",
            InputError::ModelEffectIndexOutOfRange => "model effect index is out of range",
            InputError::MeshPartNoVertexBuffer => "model mesh part has no vertex buffer",
            InputError::MeshPartNoIndexBuffer => "model mesh part has no index buffer",
            InputError::MeshPartNoEffect => "model mesh part has no effect",
            InputError::EndCalledTwice => "a gamer-services End method cannot be called twice",
            InputError::AsyncResultHasNoValue => "the gamer-services asynchronous result has no value",
            InputError::AsyncResultOfOtherOperation => "the asynchronous result belongs to a different gamer-services operation",
            InputError::GamerIndexOutOfRange => "the gamer collection index is out of range",
            InputError::SignedInGamerIndexOutOfRange => "the signed-in gamer index is out of range",
            InputError::BeginCalledTwice => "SpriteBatch.Begin was called twice",
            InputError::DrawOutsideBegin => "SpriteBatch.Draw requires an active Begin/End interval",
            InputError::EndOutsideBegin => "SpriteBatch.End requires an active interval",
            InputError::TextureOfOtherDevice => "SpriteBatch and Texture2D belong to different graphics devices",
            InputError::EffectOfOtherDevice => "SpriteBatch Effect belongs to a different graphics device",
            InputError::DrawStringOutsideBegin => "SpriteBatch.DrawString requires an active Begin/End interval",
            InputError::SpriteFontOfOtherDevice => "SpriteBatch and SpriteFont belong to different graphics devices",
            InputError::DrawStringNotFinite => "SpriteBatch.DrawString transform values must be finite",
            InputError::DrawDisposedTexture => "cannot draw a disposed Texture2D",
            InputError::EncodedTextureEmpty => "encoded texture data must not be empty",
            InputError::TextureWidthExceedsI32 => "texture width exceeds i32",
            InputError::TextureHeightExceedsI32 => "texture height exceeds i32",
            InputError::TextureLevelCountExceedsI32 => "texture level count exceeds i32",
            InputError::RendererNameTooLarge => "renderer name is too large",
            InputError::NoActiveCallback => "graphics-device operations require an active game callback",
            InputError::PrimitiveCountNotPositive => "primitive count must be greater than zero",
            InputError::PrimitiveElementCountOverflows => "primitive element count overflows",
            InputError::StartVertexNegative => "start vertex must not be negative",
            InputError::DrawRequiresVertexBuffer => "DrawPrimitives requires a bound vertex buffer",
            InputError::VertexDrawRangeOverflows => "vertex draw range overflows",
            InputError::VertexDrawRangeExceedsBuffer => "vertex draw range exceeds the bound buffer",
            InputError::MinVertexIndexNegative => "minimum vertex index must not be negative",
            InputError::IndexedDrawNeedsVertex => "indexed draws require at least one vertex",
            InputError::IndexedDrawNeedsVertexBuffer => "indexed draws require a bound vertex buffer",
            InputError::IndexedVertexRangeExceedsBuffer => "indexed vertex range exceeds the bound vertex buffer",
            InputError::IndexedDrawNeedsIndexBuffer => "indexed draws require a bound index buffer",
            InputError::IndexedDrawRangeOverflows => "indexed draw range overflows",
            InputError::IndexedDrawRangeExceedsBuffer => "indexed draw range exceeds a bound buffer",
            InputError::InstanceCountNotPositive => "instance count must be greater than zero",
            InputError::VertexOffsetNegative => "vertex offset must not be negative",
            InputError::UserVertexRangeOverflows => "user vertex range overflows",
            InputError::UserVertexRangeExceedsSlice => "user vertex range exceeds the supplied slice",
            InputError::UserDeclarationMismatch => "vertex declaration does not match the safe VertexData encoding",
            InputError::IndexOffsetNegative => "index offset must not be negative",
            InputError::UserIndexRangeOverflows => "user index range overflows",
            InputError::UserIndexRangeExceedsSlice => "user index range exceeds the supplied slice",
            InputError::UserIndexOutOfVertices => "user index references a vertex outside numVertices",
            InputError::BackBufferWindowOverflows => "back-buffer destination range overflows",
            InputError::BackBufferWindowExceedsSlice => "back-buffer destination range exceeds the supplied slice",
            InputError::BackBufferRectangleNegative => "back-buffer source rectangle must not contain negative values",
            InputError::BackBufferRectangleOverflows => "back-buffer source rectangle overflows",
            InputError::BackBufferRectangleExceeds => "back-buffer source rectangle exceeds the back buffer",
            InputError::BackBufferDestinationTooLarge => "back-buffer destination is too large",
            InputError::VertexBindingCountTooLarge => "native vertex binding count is too large",
            InputError::RenderTargetBindingCountTooLarge => "render-target binding count is too large",
            InputError::GamerObjectDisposed => "the gamer-services object is disposed",
            InputError::TextTooLarge => "CNA text is too large",
            InputError::TextNotUtf8 => "CNA text is not valid UTF-8",
            InputError::TimestampBeforeEpoch => "the timestamp precedes the Unix epoch",
            InputError::TimestampOutsideTickRange => "the timestamp is outside CLR tick range",
            InputError::AchievementIndexOutOfRange => "the achievement collection index is out of range",
            InputError::LeaderboardKeyTooLong => "the leaderboard key exceeds CNA's identity capacity",
            InputError::GamerArrayTooLarge => "the gamer array is too large",
            InputError::ButtonArrayTooLarge => "the button array is too large",
            InputError::TextTooLargeForRuntime => "the text is too large for CNA",
            InputError::UnknownAvatarExpression => "CNA reported an avatar expression XNA does not declare",
            InputError::AvatarDescriptionTooLarge => "the avatar description is too large",
            InputError::BoneArrayTooLarge => "the bone array is too large",
            InputError::EffectCodeEmpty => "Effect bytecode cannot be empty",
            InputError::EffectViewDisposed => "effect child view is disposed",
            InputError::EffectArrayCountNegative => "effect array count cannot be negative",
            InputError::AnnotationDataTooLarge => "effect annotation data is too large",
            InputError::EffectIndexNegative => "effect collection index cannot be negative",
            InputError::EffectIndexOutOfRange => "effect collection index is out of range",
            InputError::NoCurrentTechnique => "Effect has no current technique",
            InputError::TechniqueOfOtherEffect => "effect technique belongs to a different Effect",
            InputError::RenderTargetRequestInvalid => "render-target dimensions must be positive and multisampling nonnegative",
            InputError::RenderTargetCubeRequestInvalid => "render-target size must be positive and multisampling nonnegative",
            InputError::RenderTargetIdentityInvalid => "native render-target identity or dimensions are invalid",
            InputError::RenderTargetFormatUnknown => "native render-target format is unknown",
            InputError::RenderTargetDepthFormatUnknown => "native depth format is unknown",
            InputError::RenderTargetUsageUnknown => "native render-target usage is unknown",
            InputError::QueryBegunTwice => "an occlusion query cannot be begun twice",
            InputError::QueryNotBegun => "an occlusion query must be begun before it can be ended",
            InputError::QueryPixelCountActive => "an active occlusion query has no completed pixel count",
            InputError::SlotIndexNegative => "collection index must not be negative",
            InputError::SamplerIndexOutside => "sampler index is outside the collection",
            InputError::TextureIndexOutside => "texture index is outside the collection",
            InputError::FontCharacterNotUtf16 => "SpriteFont characters must fit XNA's UTF-16 char representation",
            InputError::DefaultCharacterAbsent => "SpriteFont default character is absent from the character map",
            InputError::FontTablesMismatch => "SpriteFont glyph, crop, character and kerning tables must have the same nonzero length",
            InputError::FontValuesNotFinite => "SpriteFont spacing and kerning values must be finite",
            InputError::FontCountDisagrees => "native SpriteFont character count disagrees with its source table",
            InputError::FontCharactersNotRoundTripped => "native SpriteFont character table did not round-trip",
            InputError::FontGlyphsNotRoundTripped => "native SpriteFont glyph table did not round-trip",
            InputError::FontTooManyCharacters => "native SpriteFont reports too many characters",
            InputError::FontHasNoCharacters => "a SpriteFont with no characters cannot draw anything",
            InputError::FontTablesDisagreeWithCount => "native SpriteFont tables disagree with the count it reports",
            InputError::FontCharacterNotScalar => "native SpriteFont character is not a Unicode scalar value",
            InputError::FontDefaultNotScalar => "native SpriteFont default character is not a Unicode scalar value",
            InputError::FontAtlasWithoutDevice => "SpriteFont atlas has no graphics device",
            InputError::FontSpacingNotFinite => "SpriteFont spacing must be finite",
            InputError::UnknownAvatarBodyType => "CNA reported an avatar body type XNA does not declare",
            InputError::UnknownAvatarRendererState => "CNA reported an avatar renderer state XNA does not declare",
            InputError::UnknownNotificationPosition => "CNA reported a notification position XNA does not declare",
            InputError::UnknownPlayerSlot => "CNA reported a player slot XNA does not declare",
            InputError::UnknownPresenceMode => "CNA reported a presence mode XNA does not declare",
            InputError::UnknownPrivilegeSetting => "CNA reported a privilege setting XNA does not declare",
            InputError::UnknownGameDifficulty => "CNA reported a difficulty XNA does not declare",
            InputError::UnknownControllerSensitivity => "CNA reported a controller sensitivity XNA does not declare",
            InputError::UnknownRacingCameraAngle => "CNA reported a racing camera angle XNA does not declare",
            InputError::UnknownGamerZone => "CNA reported a gamer zone XNA does not declare",
            InputError::UnknownLeaderboardOutcome => "CNA reported a leaderboard outcome XNA does not declare",
        }
    }
}

/// The text each runtime fault is reported with.
pub open spec fn native_fault_text(e: NativeFault) -> &'static str {
    match e {
        NativeFault::InconsistentVertexBufferMetadata => "CNA returned inconsistent vertex-buffer metadata",
        NativeFault::InconsistentIndexBufferMetadata => "CNA returned inconsistent index-buffer metadata",
        NativeFault::InconsistentIndexReadbackCount => "CNA returned an inconsistent index readback count",
        NativeFault::InconsistentVertexBindingCount => "CNA returned inconsistent vertex binding counts",
        NativeFault::InconsistentFirstVertexBuffer => "CNA returned inconsistent first vertex-buffer identity",
        NativeFault::VertexBindingsChangedOutside => "native vertex bindings changed outside the safe identity registry",
        NativeFault::VertexBindingIdentityDiffers => "native vertex binding identity differs from the safe registry",
        NativeFault::IndexBindingChangedOutside => "native index-buffer binding changed outside the safe identity registry",
        NativeFault::RenderTargetBindingsChangedOutside => "native render-target bindings changed outside the safe identity registry",
        NativeFault::UnknownGraphicsDeviceStatus => "CNA returned an unknown GraphicsDeviceStatus",
        NativeFault::UnknownGraphicsProfile => "CNA returned an unknown GraphicsProfile",
        NativeFault::AdapterIndexOutsideSet => "graphics-device adapter index is outside the current adapter set",
        NativeFault::EffectTextureChangedOutside => "Effect texture identity changed outside the safe wrapper",
        NativeFault::UnknownEffectParameterClass => "CNA returned an unknown effect parameter class",
        NativeFault::UnknownEffectParameterType => "CNA returned an unknown effect parameter type",
        NativeFault::InvalidBlendState => "CNA returned invalid BlendState identities",
        NativeFault::InvalidDepthStencilState => "CNA returned invalid DepthStencilState identities",
        NativeFault::InvalidRasterizerState => "CNA returned invalid RasterizerState identities",
        NativeFault::InvalidSamplerState => "CNA returned invalid SamplerState identities",
        NativeFault::InvalidPresentationParameters => "CNA returned invalid PresentationParameters identities",
        NativeFault::UnknownDisplayModeFormat => "CNA returned an unknown display-mode format",
        NativeFault::UnknownCurrentDisplayModeFormat => "CNA returned an unknown current display-mode format",
        NativeFault::EffectCollectionTooLarge => "effect collection count exceeds the address space",
        NativeFault::EffectCountExceedsInt32 => "effect collection count exceeds XNA Int32",
        NativeFault::EffectLookupDisagrees => "CNA effect lookup disagreed with the stable collection cache",
        NativeFault::CurrentTechniqueMissing => "current effect technique is absent from Techniques",
        NativeFault::ReflectionClonedPartially => "CNA cloned only part of a reflected Effect graph",
        NativeFault::UnknownSelectedSurfaceFormat => "CNA selected an unknown surface format",
        NativeFault::UnknownSelectedDepthFormat => "CNA selected an unknown depth format",
        NativeFault::NoDefaultAdapter => "CNA enumerated no default graphics adapter",
    }
}

impl NativeFault {
    /// The text the error is reported with.
    pub fn message(&self) -> (r: &'static str)
        ensures
            r == native_fault_text(*self),
    {
        match self {
            NativeFault::InconsistentVertexBufferMetadata => "CNA returned inconsistent vertex-buffer metadata",
            NativeFault::InconsistentIndexBufferMetadata => "CNA returned inconsistent index-buffer metadata",
            NativeFault::InconsistentIndexReadbackCount => "CNA returned an inconsistent index readback count",
            NativeFault::InconsistentVertexBindingCount => "CNA returned inconsistent vertex binding counts",
            NativeFault::InconsistentFirstVertexBuffer => "CNA returned inconsistent first vertex-buffer identity",
            NativeFault::VertexBindingsChangedOutside => "native vertex bindings changed outside the safe identity registry",
            NativeFault::VertexBindingIdentityDiffers => "native vertex binding identity differs from the safe registry",
            NativeFault::IndexBindingChangedOutside => "native index-buffer binding changed outside the safe identity registry",
            NativeFault::RenderTargetBindingsChangedOutside => "native render-target bindings changed outside the safe identity registry",
            NativeFault::UnknownGraphicsDeviceStatus => "CNA returned an unknown GraphicsDeviceStatus",
            NativeFault::UnknownGraphicsProfile => "CNA returned an unknown GraphicsProfile",
            NativeFault::AdapterIndexOutsideSet => "graphics-device adapter index is outside the current adapter set",
            NativeFault::EffectTextureChangedOutside => "Effect texture identity changed outside the safe wrapper",
            NativeFault::UnknownEffectParameterClass => "CNA returned an unknown effect parameter class",
            NativeFault::UnknownEffectParameterType => "CNA returned an unknown effect parameter type",
            NativeFault::InvalidBlendState => "CNA returned invalid BlendState identities",
            NativeFault::InvalidDepthStencilState => "CNA returned invalid DepthStencilState identities",
            NativeFault::InvalidRasterizerState => "CNA returned invalid RasterizerState identities",
            NativeFault::InvalidSamplerState => "CNA returned invalid SamplerState identities",
            NativeFault::InvalidPresentationParameters => "CNA returned invalid PresentationParameters identities",
            NativeFault::UnknownDisplayModeFormat => "CNA returned an unknown display-mode format",
            NativeFault::UnknownCurrentDisplayModeFormat => "CNA returned an unknown current display-mode format",
            NativeFault::EffectCollectionTooLarge => "effect collection count exceeds the address space",
            NativeFault::EffectCountExceedsInt32 => "effect collection count exceeds XNA Int32",
            NativeFault::EffectLookupDisagrees => "CNA effect lookup disagreed with the stable collection cache",
            NativeFault::CurrentTechniqueMissing => "current effect technique is absent from Techniques",
            NativeFault::ReflectionClonedPartially => "CNA cloned only part of a reflected Effect graph",
            NativeFault::UnknownSelectedSurfaceFormat => "CNA selected an unknown surface format",
            NativeFault::UnknownSelectedDepthFormat => "CNA selected an unknown depth format",
            NativeFault::NoDefaultAdapter => "CNA enumerated no default graphics adapter",
        }
    }
}

/// The text each missing route is reported with.
pub open spec fn unsupported_text(e: Unsupported) -> &'static str {
    match e {
        Unsupported::IndependentGraphicsDevice => "CNA exposes only the game-owned GraphicsDevice; it has no independent device constructor",
        Unsupported::TextureWithoutHandle => "CNA reports a canonically bound texture without a reversible C handle",
        Unsupported::TextureNotReconstructible => "CNA cannot reconstruct a safe texture wrapper from a native handle",
        Unsupported::DepthStencilClear => "CNA exposes color-target clear but not the mapped depth/stencil clear route",
        Unsupported::PartialPresent => "CNA exposes only whole-backbuffer presentation to the current window",
        Unsupported::GraphicsDeviceDispose => "CNA has no independent game-owned GraphicsDevice dispose route",
        Unsupported::EffectTextureNotAssigned => "CNA returned an Effect texture not assigned through this safe wrapper",
    }
}

impl Unsupported {
    /// The text the error is reported with.
    pub fn message(&self) -> (r: &'static str)
        ensures
            r == unsupported_text(*self),
    {
        match self {
            Unsupported::IndependentGraphicsDevice => "CNA exposes only the game-owned GraphicsDevice; it has no independent device constructor",
            Unsupported::TextureWithoutHandle => "CNA reports a canonically bound texture without a reversible C handle",
            Unsupported::TextureNotReconstructible => "CNA cannot reconstruct a safe texture wrapper from a native handle",
            Unsupported::DepthStencilClear => "CNA exposes color-target clear but not the mapped depth/stencil clear route",
            Unsupported::PartialPresent => "CNA exposes only whole-backbuffer presentation to the current window",
            Unsupported::GraphicsDeviceDispose => "CNA has no independent game-owned GraphicsDevice dispose route",
            Unsupported::EffectTextureNotAssigned => "CNA returned an Effect texture not assigned through this safe wrapper",
        }
    }
}

/// The text each contained callback fault is reported with.
pub open spec fn callback_fault_text(e: CallbackFault) -> &'static str {
    match e {
        CallbackFault::EventHandlerPanicked => "an event-handler panic was contained before the native boundary",
        CallbackFault::CompletionCallbackPanicked => "a gamer-services completion callback panicked",
        CallbackFault::DeviceResettingHandlerPanicked => "GraphicsDevice.DeviceResetting handler panicked",
        CallbackFault::DeviceResetHandlerPanicked => "GraphicsDevice.DeviceReset handler panicked",
    }
}

impl CallbackFault {
    /// The text the error is reported with.
    pub fn message(&self) -> (r: &'static str)
        ensures
            r == callback_fault_text(*self),
    {
        match self {
            CallbackFault::EventHandlerPanicked => "an event-handler panic was contained before the native boundary",
            CallbackFault::CompletionCallbackPanicked => "a gamer-services completion callback panicked",
            CallbackFault::DeviceResettingHandlerPanicked => "GraphicsDevice.DeviceResetting handler panicked",
            CallbackFault::DeviceResetHandlerPanicked => "GraphicsDevice.DeviceReset handler panicked",
        }
    }
}

} // verus!
