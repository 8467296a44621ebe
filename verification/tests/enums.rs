use webviewjs::wry::enums::{
    BackgroundThrottlingPolicy, DragDropEvent, Error, NewWindowResponse, PageLoadEvent, ProxyConfig,
    Theme,
};

#[test]
fn engine_enumerations_tell_their_values_apart() {
    assert_ne!(BackgroundThrottlingPolicy::Suspend, BackgroundThrottlingPolicy::Unsuspend);
    assert_ne!(
        BackgroundThrottlingPolicy::Unsuspend,
        BackgroundThrottlingPolicy::UnsuspendWhenFirstVisible
    );
    assert_ne!(DragDropEvent::Entered, DragDropEvent::Dropped);
    assert_ne!(DragDropEvent::Hovered, DragDropEvent::Left);
    assert_ne!(Error::Uninitialized, Error::AlreadyDestroyed);
    assert_ne!(Error::InvalidUrl, Error::InvalidIcon);
    assert_ne!(NewWindowResponse::Deny, NewWindowResponse::Allow);
    assert_ne!(NewWindowResponse::Allow, NewWindowResponse::AllowAndNavigate);
    assert_ne!(PageLoadEvent::Started, PageLoadEvent::Completed);
    assert_ne!(ProxyConfig::Direct, ProxyConfig::Http("h".to_string()));
    assert_ne!(ProxyConfig::Http("h".to_string()), ProxyConfig::Https("h".to_string()));
    assert_eq!(ProxyConfig::Socks5("s".to_string()), ProxyConfig::Socks5("s".to_string()));
    assert_ne!(Theme::Light, Theme::Auto);
}
