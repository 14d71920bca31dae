use barcode_soundboard::{parse_args, Args, ArgsError};

#[test]
fn both_settings_given() {
    let r = parse_args(Some("config.toml".to_string()), Some("/dev/input/event23".to_string()));
    assert_eq!(
        r,
        Ok(Args {
            config_filename: "config.toml".to_string(),
            input_device: "/dev/input/event23".to_string(),
        })
    );
}

#[test]
fn missing_config_is_reported() {
    assert_eq!(parse_args(None, Some("/dev/input/event0".to_string())), Err(ArgsError::MissingConfig));
    assert_eq!(parse_args(None, None), Err(ArgsError::MissingConfig));
    assert_eq!(ArgsError::MissingConfig.flag(), "--config");
}

#[test]
fn missing_device_is_reported() {
    assert_eq!(
        parse_args(Some("c.toml".to_string()), None),
        Err(ArgsError::MissingInputDevice)
    );
    assert_eq!(ArgsError::MissingInputDevice.flag(), "--input-device");
}
