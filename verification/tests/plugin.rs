use media_lib::HardwareAcceleratedVideoDecoder;
use media_lib::HostOs;
use media_lib::LoadStage;
use media_lib::MediaClientError;
use media_lib::MediaLibError;
use media_lib::ModuleLoadReport;
use media_lib::PluginLoader;
use media_lib::default_library_name;
use media_lib::load;

#[test]
fn load_on_nonexistent_path_returns_plugin_load_error() {
    // The dynamic loader reports that the module cannot be opened; the
    // attempt returns a typed error instead of taking the process down.
    let report = ModuleLoadReport::OpenFailed(String::from(
        "/no/such/dir/libmedia_lib.so: cannot open shared object file",
    ));
    match load(report) {
        Err(MediaClientError::PluginLoadError(m)) => {
            assert!(m.contains("cannot open shared object file"));
        },
        other => panic!("expected a plugin-load error, got {:?}", other),
    }
}

#[test]
fn missing_entry_point_is_a_plugin_load_error() {
    let report = ModuleLoadReport::SymbolMissing(String::from("init_media_lib not found"));
    match load(report) {
        Err(MediaClientError::PluginLoadError(m)) => {
            assert_eq!(m, "init_media_lib not found");
        },
        other => panic!("expected a plugin-load error, got {:?}", other),
    }
}

#[test]
fn engine_rejection_is_its_own_error_class() {
    let engine_error = MediaLibError::FFmpegError(String::from("codec registry corrupt"));
    let report = ModuleLoadReport::InitRejected(engine_error.clone());
    match load(report) {
        Err(MediaClientError::InitializationRejected(e)) => assert_eq!(e, engine_error),
        other => panic!("expected an initialisation rejection, got {:?}", other),
    }
}

#[test]
fn successful_load_hands_out_a_ready_client() {
    let client = load(ModuleLoadReport::Loaded).unwrap();
    assert_eq!(client.loader.stage, LoadStage::Ready);
}

#[test]
fn loader_walks_the_stages_in_order() {
    let mut loader = PluginLoader::new();
    assert_eq!(loader.stage, LoadStage::OpeningModule);
    loader.stage_succeeded();
    assert_eq!(loader.stage, LoadStage::ResolvingInit);
    loader.stage_succeeded();
    assert_eq!(loader.stage, LoadStage::RunningInit);
    loader.stage_succeeded();
    assert_eq!(loader.stage, LoadStage::ResolvingFactory);
    loader.stage_succeeded();
    assert_eq!(loader.stage, LoadStage::Ready);
}

#[test]
fn new_frame_decoder_forwards_the_factory_result() {
    let client = load(ModuleLoadReport::Loaded).unwrap();

    let decoder = HardwareAcceleratedVideoDecoder::new(0, Some((426, 240)), None, 1, 25);
    let ok = client.new_frame_decoder(Ok(decoder.clone()));
    assert_eq!(ok.unwrap(), decoder);

    let engine_error = MediaLibError::FFmpegError(String::from("No video stream found"));
    match client.new_frame_decoder(Err(engine_error.clone())) {
        Err(MediaClientError::MediaLibError(e)) => assert_eq!(e, engine_error),
        other => panic!("expected the engine error forwarded, got {:?}", other),
    }
}

#[test]
fn default_library_names_follow_platform_conventions() {
    assert_eq!(default_library_name(HostOs::Windows), "media_lib.dll");
    assert_eq!(default_library_name(HostOs::MacOs), "libmedia_lib.dylib");
    assert_eq!(default_library_name(HostOs::Other), "libmedia_lib.so");
}

#[test]
fn client_errors_carry_their_messages() {
    let e = MediaClientError::PluginLoadError(String::from("no such file"));
    assert_eq!(e.message(), "no such file");
    let e = MediaClientError::UnknownError(String::from("odd"));
    assert_eq!(e.message(), "Unknown error: odd");
    let e = MediaClientError::MediaLibError(MediaLibError::FFmpegError(String::from("x")));
    assert_eq!(e.message(), "x");
    let e = MediaClientError::InitializationRejected(MediaLibError::UnknownError(String::from("y")));
    assert_eq!(e.message(), "y");
}
