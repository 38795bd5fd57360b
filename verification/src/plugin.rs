//! The plugin boundary: loading a decoding-engine module at runtime.
//!
//! Loading walks a fixed protocol — open the module, resolve its
//! initialisation entry point, run it, resolve the decoder factory — and
//! every failure is classified by the stage it struck.  A loaded module
//! must outlive every handle it issued; the shell owns that lifetime and
//! keeps the module alive until the client and its decoders are gone.

use vstd::prelude::*;
use crate::decoder::HardwareAcceleratedVideoDecoder;
use crate::types::MediaLibError;

verus! {

/// Errors crossing the plugin boundary.
#[derive(Debug, Clone, PartialEq, Eq)]
pub enum MediaClientError {
    /// The module could not be loaded, or a required entry point is
    /// missing from it.
    PluginLoadError(String),
    /// The engine's own initialisation entry point rejected the load.
    InitializationRejected(MediaLibError),
    /// An engine error, forwarded across the boundary.
    MediaLibError(MediaLibError),
    /// A failure that fits no other variant.
    UnknownError(String),
}

impl From<MediaLibError> for MediaClientError {
    fn from(error: MediaLibError) -> (r: MediaClientError) {
        MediaClientError::MediaLibError(error)
    }
}

impl vstd::std_specs::convert::FromSpecImpl<MediaLibError> for MediaClientError {
    open spec fn obeys_from_spec() -> bool {
        true
    }

    open spec fn from_spec(error: MediaLibError) -> MediaClientError {
        MediaClientError::MediaLibError(error)
    }
}

/// The message text a client-side error carries; an unclassified failure
/// is prefixed as such.
pub open spec fn spec_client_error_message(e: MediaClientError) -> Seq<char> {
    match e {
        MediaClientError::PluginLoadError(s) => s@,
        MediaClientError::InitializationRejected(inner) => crate::types::spec_error_message(inner),
        MediaClientError::MediaLibError(inner) => crate::types::spec_error_message(inner),
        MediaClientError::UnknownError(s) => "Unknown error: "@ + s@,
    }
}

impl MediaClientError {
    /// The error's message text.
    pub fn message(&self) -> (r: String)
        ensures
            r@ == spec_client_error_message(*self),
    {
        match self {
            MediaClientError::PluginLoadError(s) => String::from_str(s.as_str()),
            MediaClientError::InitializationRejected(inner) => String::from_str(
                inner.message().as_str(),
            ),
            MediaClientError::MediaLibError(inner) => String::from_str(inner.message().as_str()),
            MediaClientError::UnknownError(s) => {
                let mut r = String::from_str("Unknown error: ");
                r.append(s.as_str());
                r
            },
        }
    }
}

/// The stages of loading a module, in the order they run.
#[derive(Debug, Clone, Copy, PartialEq, Eq, Structural)]
pub enum LoadStage {
    /// Opening the module at the given path.
    OpeningModule,
    /// Resolving the engine's initialisation entry point.
    ResolvingInit,
    /// Invoking the initialisation entry point.
    RunningInit,
    /// Resolving the decoder-factory entry point.
    ResolvingFactory,
    /// Everything resolved; the client handle is usable.
    Ready,
}

/// The stage that follows a successful one.
pub open spec fn spec_next_load_stage(s: LoadStage) -> LoadStage {
    match s {
        LoadStage::OpeningModule => LoadStage::ResolvingInit,
        LoadStage::ResolvingInit => LoadStage::RunningInit,
        LoadStage::RunningInit => LoadStage::ResolvingFactory,
        _ => LoadStage::Ready,
    }
}

/// Whether a failure at stage `s` is a plugin-load error: an unloadable
/// module and a missing entry point are; a rejection by the engine's own
/// initialisation is its own class.
pub open spec fn spec_stage_is_load_error(s: LoadStage) -> bool {
    s == LoadStage::OpeningModule || s == LoadStage::ResolvingInit || s
        == LoadStage::ResolvingFactory
}

/// Drives the load protocol: tracks the stage and classifies failures.
#[derive(Debug, Clone, Copy, PartialEq, Eq, Structural)]
pub struct PluginLoader {
    pub stage: LoadStage,
}

impl PluginLoader {
    /// A fresh load attempt, about to open the module.
    pub fn new() -> (r: PluginLoader)
        ensures
            r.stage == LoadStage::OpeningModule,
    {
        PluginLoader { stage: LoadStage::OpeningModule }
    }

    /// The current stage's outside work succeeded: move to the next one.
    pub fn stage_succeeded(&mut self)
        requires
            old(self).stage != LoadStage::Ready,
        ensures
            final(self).stage == spec_next_load_stage(old(self).stage),
    {
        self.stage = match self.stage {
            LoadStage::OpeningModule => LoadStage::ResolvingInit,
            LoadStage::ResolvingInit => LoadStage::RunningInit,
            LoadStage::RunningInit => LoadStage::ResolvingFactory,
            _ => LoadStage::Ready,
        };
    }

    /// The current stage's outside work failed: the error it classifies
    /// to.  The attempt returns this error to the caller — it never takes
    /// the process down.
    pub fn stage_failed(&self, message: String) -> (r: MediaClientError)
        requires
            self.stage != LoadStage::RunningInit,
        ensures
            spec_stage_is_load_error(self.stage) ==> r == MediaClientError::PluginLoadError(
                message,
            ),
            !spec_stage_is_load_error(self.stage) ==> r == MediaClientError::UnknownError(message),
    {
        match self.stage {
            LoadStage::OpeningModule => MediaClientError::PluginLoadError(message),
            LoadStage::ResolvingInit => MediaClientError::PluginLoadError(message),
            LoadStage::ResolvingFactory => MediaClientError::PluginLoadError(message),
            _ => MediaClientError::UnknownError(message),
        }
    }

    /// The engine's initialisation entry point rejected the load.
    pub fn engine_rejected(&self, error: MediaLibError) -> (r: MediaClientError)
        requires
            self.stage == LoadStage::RunningInit,
        ensures
            r == MediaClientError::InitializationRejected(error),
    {
        MediaClientError::InitializationRejected(error)
    }
}

/// A client handle bound to a loaded module; it exists only after the
/// whole load protocol succeeded.
#[derive(Debug, Clone, Copy, PartialEq, Eq, Structural)]
pub struct MediaClient {
    pub loader: PluginLoader,
}

impl MediaClient {
    /// A usable client always stands at the end of the protocol.
    pub open spec fn wf(self) -> bool {
        self.loader.stage == LoadStage::Ready
    }

    /// Maps the engine factory's reply to the client's result: a decoder
    /// handle passes through, an engine error is forwarded as such.
    pub fn new_frame_decoder(
        &self,
        factory_result: Result<HardwareAcceleratedVideoDecoder, MediaLibError>,
    ) -> (r: Result<HardwareAcceleratedVideoDecoder, MediaClientError>)
        requires
            self.wf(),
        ensures
            r matches Ok(d) ==> factory_result matches Ok(d0) && d == d0,
            r matches Err(e) ==> factory_result matches Err(e0) && e
                == MediaClientError::MediaLibError(e0),
            r is Ok <==> factory_result is Ok,
    {
        match factory_result {
            Ok(decoder) => Ok(decoder),
            Err(e) => Err(MediaClientError::from(e)),
        }
    }
}

/// What the dynamic loader and the engine reported for one load attempt.
#[derive(Debug, Clone, PartialEq, Eq)]
pub enum ModuleLoadReport {
    /// The module at the given path could not be opened.
    OpenFailed(String),
    /// The module lacks a required entry point.
    SymbolMissing(String),
    /// The engine's initialisation rejected the load.
    InitRejected(MediaLibError),
    /// The module opened, every entry point resolved, and initialisation
    /// succeeded.
    Loaded,
}

/// Classifies one load attempt: a handle when everything succeeded, and
/// otherwise the error class of the stage that failed.
///
/// A module that cannot be opened — a nonexistent path among else — is a
/// plugin-load error, returned to the caller; the attempt never aborts the
/// process.
pub fn load(report: ModuleLoadReport) -> (r: Result<MediaClient, MediaClientError>)
    ensures
        r is Ok <==> report == ModuleLoadReport::Loaded,
        r matches Ok(c) ==> c.wf(),
        report matches ModuleLoadReport::OpenFailed(m) ==> r matches Err(e) && e
            == MediaClientError::PluginLoadError(m),
        report matches ModuleLoadReport::SymbolMissing(m) ==> r matches Err(e) && e
            == MediaClientError::PluginLoadError(m),
        report matches ModuleLoadReport::InitRejected(err) ==> r matches Err(e) && e
            == MediaClientError::InitializationRejected(err),
{
    let mut loader = PluginLoader::new();
    match report {
        ModuleLoadReport::OpenFailed(m) => Err(loader.stage_failed(m)),
        ModuleLoadReport::SymbolMissing(m) => {
            loader.stage_succeeded();
            Err(loader.stage_failed(m))
        },
        ModuleLoadReport::InitRejected(err) => {
            loader.stage_succeeded();
            loader.stage_succeeded();
            Err(loader.engine_rejected(err))
        },
        ModuleLoadReport::Loaded => {
            loader.stage_succeeded();
            loader.stage_succeeded();
            loader.stage_succeeded();
            loader.stage_succeeded();
            Ok(MediaClient { loader })
        },
    }
}

/// The platform's default file name for the decoding-engine module, used
/// when no path is supplied through the environment.
#[derive(Debug, Clone, Copy, PartialEq, Eq, Structural)]
pub enum HostOs {
    Windows,
    MacOs,
    Other,
}

/// The module file name each platform's conventions give.
pub fn default_library_name(os: HostOs) -> (r: &'static str)
    ensures
        os == HostOs::Windows ==> r@ == "media_lib.dll"@,
        os == HostOs::MacOs ==> r@ == "libmedia_lib.dylib"@,
        os == HostOs::Other ==> r@ == "libmedia_lib.so"@,
{
    match os {
        HostOs::Windows => "media_lib.dll",
        HostOs::MacOs => "libmedia_lib.dylib",
        HostOs::Other => "libmedia_lib.so",
    }
}

} // verus!
