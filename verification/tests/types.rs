use media_lib::Command;
use media_lib::MediaFrameDecoderOptions;
use media_lib::MediaLibError;
use media_lib::MediaLibInit;
use media_lib::VideoSize;

#[test]
fn every_size_has_its_dimensions() {
    assert_eq!(VideoSize::P240.dimensions(), (426, 240));
    assert_eq!(VideoSize::P360.dimensions(), (640, 360));
    assert_eq!(VideoSize::P480.dimensions(), (854, 480));
    assert_eq!(VideoSize::P720.dimensions(), (1280, 720));
    assert_eq!(VideoSize::P1080.dimensions(), (1920, 1080));
}

#[test]
fn decoder_options_carry_the_target() {
    let (target_width, target_height) = VideoSize::P240.dimensions();
    let options = MediaFrameDecoderOptions { target_width, target_height };
    assert_eq!(options.target_width, 426);
    assert_eq!(options.target_height, 240);
}

#[test]
fn errors_carry_their_messages() {
    let e = MediaLibError::FFmpegError(String::from("No video stream found"));
    assert_eq!(e.message(), "No video stream found");
    let e = MediaLibError::UnknownError(String::from("?"));
    assert_eq!(e.message(), "?");
    let e = MediaLibError::ImageError(String::from("bad scanline"));
    assert_eq!(e.message(), "bad scanline");
}

#[test]
fn init_token_is_plain() {
    let init = MediaLibInit {};
    assert_eq!(init, MediaLibInit {});
}

#[test]
fn command_carries_its_paths() {
    let c = Command::GetKeyFrames {
        input: String::from("test.mp4"),
        output_dir: String::from("frames"),
    };
    match c {
        Command::GetKeyFrames { input, output_dir } => {
            assert_eq!(input, "test.mp4");
            assert_eq!(output_dir, "frames");
        },
    }
}
