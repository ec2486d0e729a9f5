use cef_tabs::commands::{
    cef_execute_js, cef_get_page_content, cef_get_selection, cef_go_back, cef_go_forward,
    cef_on_loading_state_change, cef_on_title_change, cef_on_url_change, cef_reload, cef_stop,
    cef_switch_tab, cef_update_bounds, close_cef_browser, create_cef_browser, navigate_cef,
    CloseCefBrowserPayload, CreateCefBrowserPayload, NavigateCefPayload, PageContent, Topic,
};
use cef_tabs::error::{AppError, ArgumentFault};

fn px(value: f64) -> u64 {
    value.to_bits()
}

fn fault(kind: ArgumentFault) -> AppError {
    AppError::InvalidArgument(kind)
}

fn create(tab_id: &str, url: &str, width: f64, height: f64) -> Result<(Topic, String, String), AppError> {
    create_cef_browser(tab_id.to_string(), url.to_string(), px(0.0), px(0.0), px(width), px(height))
        .map(|n| (n.topic, n.payload.tab_id, n.payload.url))
}

#[test]
fn test_create_cef_browser_valid_params() {
    let tab_id = "tab-1".to_string();
    let url = "https://example.com".to_string();

    assert!(!tab_id.is_empty());
    assert!(!url.is_empty());
    assert!(800.0 > 0.0);
    assert!(600.0 > 0.0);

    assert_eq!(
        create(&tab_id, &url, 800.0, 600.0),
        Ok((Topic::BrowserCreated, "tab-1".to_string(), "https://example.com".to_string()))
    );
}

#[test]
fn test_create_cef_browser_empty_tab_id() {
    let tab_id = String::new();
    assert!(tab_id.is_empty());
    assert_eq!(
        create(&tab_id, "https://example.com", 800.0, 600.0),
        Err(fault(ArgumentFault::EmptyTabId))
    );
}

#[test]
fn test_create_cef_browser_empty_url() {
    let url = String::new();
    assert!(url.is_empty());
    assert_eq!(create("tab-1", &url, 800.0, 600.0), Err(fault(ArgumentFault::EmptyUrl)));
    // The URL is looked at first.
    assert_eq!(create("", &url, 0.0, 0.0), Err(fault(ArgumentFault::EmptyUrl)));
}

#[test]
fn test_create_cef_browser_invalid_dimensions() {
    let width = 0.0;
    let height = 600.0;

    assert!(!(width > 0.0 && height > 0.0));
    assert_eq!(
        create("tab-1", "https://example.com", width, height),
        Err(fault(ArgumentFault::NonPositiveSize))
    );
    assert_eq!(
        create("tab-1", "https://example.com", height, width),
        Err(fault(ArgumentFault::NonPositiveSize))
    );
    // The identifier is looked at before the size.
    assert_eq!(
        create("", "https://example.com", width, height),
        Err(fault(ArgumentFault::EmptyTabId))
    );
}

#[test]
fn test_create_cef_browser_negative_dimensions() {
    let width = -800.0;
    let height = 600.0;

    assert!(!(width > 0.0 && height > 0.0));
    assert_eq!(
        create("tab-1", "https://example.com", width, height),
        Err(fault(ArgumentFault::NonPositiveSize))
    );
    assert_eq!(
        create("tab-1", "https://example.com", height, width),
        Err(fault(ArgumentFault::NonPositiveSize))
    );
}

#[test]
fn test_navigate_cef_valid_params() {
    let tab_id = "tab-1".to_string();
    let url = "https://example.com".to_string();

    assert!(!tab_id.is_empty());
    assert!(!url.is_empty());

    let sent = navigate_cef(tab_id, url).unwrap();
    assert_eq!(sent.topic, Topic::NavigationStarted);
    assert_eq!(sent.payload.tab_id, "tab-1");
    assert_eq!(sent.payload.url, "https://example.com");
}

#[test]
fn test_navigate_cef_empty_tab_id() {
    let tab_id = String::new();
    assert!(tab_id.is_empty());
    assert_eq!(
        navigate_cef(tab_id.clone(), "https://example.com".to_string()).unwrap_err(),
        fault(ArgumentFault::EmptyTabId)
    );
    // The identifier is looked at first.
    assert_eq!(navigate_cef(tab_id, String::new()).unwrap_err(), fault(ArgumentFault::EmptyTabId));
}

#[test]
fn test_navigate_cef_empty_url() {
    let url = String::new();
    assert!(url.is_empty());
    assert_eq!(
        navigate_cef("tab-1".to_string(), url).unwrap_err(),
        fault(ArgumentFault::EmptyUrl)
    );
}

#[test]
fn test_navigate_cef_various_urls() {
    let urls = vec![
        "https://example.com",
        "http://example.com",
        "https://example.com/path",
        "https://example.com/path?query=value",
        "https://example.com:8080",
    ];

    for url in urls {
        assert!(!url.is_empty());
        let sent = navigate_cef("tab-1".to_string(), url.to_string()).unwrap();
        assert_eq!(sent.payload.url, url);
    }
}

#[test]
fn test_close_cef_browser_valid_tab_id() {
    let tab_id = "tab-1".to_string();
    assert!(!tab_id.is_empty());
    let sent = close_cef_browser(tab_id).unwrap();
    assert_eq!(sent.topic, Topic::BrowserClosed);
    assert_eq!(sent.payload.tab_id, "tab-1");
}

#[test]
fn test_close_cef_browser_empty_tab_id() {
    let tab_id = String::new();
    assert!(tab_id.is_empty());
    assert_eq!(close_cef_browser(tab_id).unwrap_err(), fault(ArgumentFault::EmptyTabId));
}

#[test]
fn test_close_cef_browser_various_tab_ids() {
    let tab_ids = vec!["tab-1", "tab-2", "browser-main", "webview-123"];

    for tab_id in tab_ids {
        assert!(!tab_id.is_empty());
        assert_eq!(close_cef_browser(tab_id.to_string()).unwrap().payload.tab_id, tab_id);
    }
}

#[test]
fn test_cef_go_back_valid_tab_id() {
    let tab_id = "tab-1".to_string();
    assert!(!tab_id.is_empty());
    let sent = cef_go_back(tab_id, 1701234567890).unwrap();
    assert_eq!(sent.topic, Topic::NavigationBack);
    assert_eq!(sent.payload.tab_id, "tab-1");
    assert_eq!(sent.payload.timestamp, 1701234567890);
    assert_eq!(cef_go_back(String::new(), 1).unwrap_err(), fault(ArgumentFault::EmptyTabId));
}

#[test]
fn test_cef_go_forward_valid_tab_id() {
    let tab_id = "tab-1".to_string();
    assert!(!tab_id.is_empty());
    let sent = cef_go_forward(tab_id, 1701234567890).unwrap();
    assert_eq!(sent.topic, Topic::NavigationForward);
    assert_eq!(sent.payload.tab_id, "tab-1");
    assert_eq!(sent.payload.timestamp, 1701234567890);
    assert_eq!(cef_go_forward(String::new(), 1).unwrap_err(), fault(ArgumentFault::EmptyTabId));
}

#[test]
fn test_cef_reload_valid_tab_id() {
    let tab_id = "tab-1".to_string();
    assert!(!tab_id.is_empty());
    let sent = cef_reload(tab_id, 1701234567890).unwrap();
    assert_eq!(sent.topic, Topic::PageReload);
    assert_eq!(sent.payload.tab_id, "tab-1");
    assert_eq!(sent.payload.timestamp, 1701234567890);
    assert_eq!(cef_reload(String::new(), 1).unwrap_err(), fault(ArgumentFault::EmptyTabId));
}

#[test]
fn test_cef_stop_valid_tab_id() {
    let tab_id = "tab-1".to_string();
    assert!(!tab_id.is_empty());
    let sent = cef_stop(tab_id, 1701234567890).unwrap();
    assert_eq!(sent.topic, Topic::PageStop);
    assert_eq!(sent.payload.tab_id, "tab-1");
    assert_eq!(sent.payload.timestamp, 1701234567890);
    assert_eq!(cef_stop(String::new(), 1).unwrap_err(), fault(ArgumentFault::EmptyTabId));
}

#[test]
fn test_cef_execute_js_valid_params() {
    let tab_id = "tab-1".to_string();
    let script = "console.log('test');".to_string();

    assert!(!tab_id.is_empty());
    assert!(!script.is_empty());
    assert_eq!(cef_execute_js(tab_id, script), Ok("null".to_string()));
}

#[test]
fn test_cef_execute_js_empty_tab_id() {
    let tab_id = String::new();
    assert!(tab_id.is_empty());
    assert_eq!(
        cef_execute_js(tab_id.clone(), "document.title".to_string()),
        Err(fault(ArgumentFault::EmptyTabId))
    );
    // The identifier is looked at first.
    assert_eq!(cef_execute_js(tab_id, String::new()), Err(fault(ArgumentFault::EmptyTabId)));
}

#[test]
fn test_cef_execute_js_empty_script() {
    let script = String::new();
    assert!(script.is_empty());
    assert_eq!(
        cef_execute_js("tab-1".to_string(), script),
        Err(fault(ArgumentFault::EmptyScript))
    );
}

#[test]
fn test_cef_execute_js_various_scripts() {
    let scripts = vec![
        "console.log('test');",
        "document.title",
        "window.location.href",
        "document.body.innerText",
        "JSON.stringify({a: 1})",
    ];

    for script in scripts {
        assert!(!script.is_empty());
        assert_eq!(cef_execute_js("tab-1".to_string(), script.to_string()), Ok("null".to_string()));
    }
}

#[test]
fn test_cef_get_page_content_valid_tab_id() {
    let tab_id = "tab-1".to_string();
    assert!(!tab_id.is_empty());
    let page = cef_get_page_content(tab_id).unwrap();
    assert_eq!(page.url, "");
    assert_eq!(page.title, "");
    assert_eq!(page.content, "");
    assert_eq!(page.description, "");
    assert!(page.favicon.is_none());
}

#[test]
fn test_cef_get_page_content_empty_tab_id() {
    let tab_id = String::new();
    assert!(tab_id.is_empty());
    assert_eq!(cef_get_page_content(tab_id).unwrap_err(), fault(ArgumentFault::EmptyTabId));
}

#[test]
fn test_cef_get_selection_valid_tab_id() {
    let tab_id = "tab-1".to_string();
    assert!(!tab_id.is_empty());
    assert_eq!(cef_get_selection(tab_id), Ok(String::new()));
}

#[test]
fn test_cef_get_selection_empty_tab_id() {
    let tab_id = String::new();
    assert!(tab_id.is_empty());
    assert_eq!(cef_get_selection(tab_id), Err(fault(ArgumentFault::EmptyTabId)));
}

#[test]
fn test_url_validation_http() {
    let url = "http://example.com";
    assert!(url.starts_with("http://") || url.starts_with("https://"));
    assert!(navigate_cef("tab-1".to_string(), url.to_string()).is_ok());
}

#[test]
fn test_url_validation_https() {
    let url = "https://example.com";
    assert!(url.starts_with("http://") || url.starts_with("https://"));
    assert!(navigate_cef("tab-1".to_string(), url.to_string()).is_ok());
}

#[test]
fn test_url_validation_with_path() {
    let url = "https://example.com/path/to/page";
    assert!(url.starts_with("http://") || url.starts_with("https://"));
    assert_eq!(navigate_cef("tab-1".to_string(), url.to_string()).unwrap().payload.url, url);
}

#[test]
fn test_url_validation_with_query() {
    let url = "https://example.com?query=value";
    assert!(url.starts_with("http://") || url.starts_with("https://"));
    assert_eq!(navigate_cef("tab-1".to_string(), url.to_string()).unwrap().payload.url, url);
}

#[test]
fn test_tab_id_validation_simple() {
    let tab_id = "tab-1";
    assert!(!tab_id.is_empty());
    assert_eq!(cef_switch_tab(tab_id.to_string(), 1).unwrap().payload.tab_id, tab_id);
}

#[test]
fn test_tab_id_validation_uuid() {
    let tab_id = "550e8400-e29b-41d4-a716-446655440000";
    assert!(!tab_id.is_empty());
    assert_eq!(cef_switch_tab(tab_id.to_string(), 1).unwrap().payload.tab_id, tab_id);
}

#[test]
fn test_tab_id_validation_numeric() {
    let tab_id = "12345";
    assert!(!tab_id.is_empty());
    assert_eq!(cef_switch_tab(tab_id.to_string(), 1).unwrap().payload.tab_id, tab_id);
}

#[test]
fn test_dimension_validation_positive() {
    let width = 800.0;
    let height = 600.0;
    assert!(width > 0.0 && height > 0.0);
    assert!(create("tab-1", "https://example.com", width, height).is_ok());
}

#[test]
fn test_dimension_validation_large() {
    let width = 3840.0;
    let height = 2160.0;
    assert!(width > 0.0 && height > 0.0);
    assert!(create("tab-1", "https://example.com", width, height).is_ok());
}

#[test]
fn test_dimension_validation_small() {
    let width = 100.0;
    let height = 100.0;
    assert!(width > 0.0 && height > 0.0);
    assert!(create("tab-1", "https://example.com", width, height).is_ok());
}

#[test]
fn test_dimension_validation_fractional() {
    let width = 800.5;
    let height = 600.5;
    assert!(width > 0.0 && height > 0.0);
    assert!(create("tab-1", "https://example.com", width, height).is_ok());
}

#[test]
fn test_position_validation_origin() {
    let x = 0.0;
    let y = 0.0;
    assert!(x >= 0.0 && y >= 0.0);
    let sent =
        cef_update_bounds("tab-1".to_string(), px(x), px(y), px(800.0), px(600.0), 7).unwrap();
    assert_eq!(f64::from_bits(sent.payload.x), x);
    assert_eq!(f64::from_bits(sent.payload.y), y);
}

#[test]
fn test_position_validation_positive() {
    let x = 100.0;
    let y = 100.0;
    assert!(x >= 0.0 && y >= 0.0);
    let sent =
        cef_update_bounds("tab-1".to_string(), px(x), px(y), px(800.0), px(600.0), 7).unwrap();
    assert_eq!(f64::from_bits(sent.payload.x), x);
    assert_eq!(f64::from_bits(sent.payload.y), y);
}

#[test]
fn test_position_validation_large() {
    let x = 3840.0;
    let y = 2160.0;
    assert!(x >= 0.0 && y >= 0.0);
    let sent =
        cef_update_bounds("tab-1".to_string(), px(x), px(y), px(800.0), px(600.0), 7).unwrap();
    assert_eq!(f64::from_bits(sent.payload.x), x);
    assert_eq!(f64::from_bits(sent.payload.y), y);
}

#[test]
fn test_create_cef_browser_payload() {
    let payload = CreateCefBrowserPayload {
        tab_id: "tab-1".to_string(),
        url: "https://example.com".to_string(),
    };

    assert_eq!(payload.tab_id, "tab-1");
    assert_eq!(payload.url, "https://example.com");
}

#[test]
fn test_navigate_cef_payload() {
    let payload = NavigateCefPayload {
        tab_id: "tab-1".to_string(),
        url: "https://example.com".to_string(),
    };

    assert_eq!(payload.tab_id, "tab-1");
    assert_eq!(payload.url, "https://example.com");
}

#[test]
fn test_close_cef_browser_payload() {
    let payload = CloseCefBrowserPayload { tab_id: "tab-1".to_string() };

    assert_eq!(payload.tab_id, "tab-1");
}

#[test]
fn test_page_content_payload() {
    let payload = PageContent {
        url: "https://example.com".to_string(),
        title: "Example".to_string(),
        content: "Content".to_string(),
        description: "Description".to_string(),
        favicon: Some("https://example.com/favicon.ico".to_string()),
    };

    assert_eq!(payload.url, "https://example.com");
    assert_eq!(payload.title, "Example");
    assert_eq!(payload.content, "Content");
    assert_eq!(payload.description, "Description");
    assert!(payload.favicon.is_some());
}

#[test]
fn engine_reports_become_notifications() {
    let sent = cef_on_url_change("tab-1".to_string(), "https://b.test".to_string(), 42).unwrap();
    assert_eq!(sent.topic, Topic::UrlChanged);
    assert_eq!(sent.payload.tab_id, "tab-1");
    assert_eq!(sent.payload.url, "https://b.test");
    assert_eq!(sent.payload.timestamp, 42);
    assert_eq!(
        cef_on_url_change(String::new(), String::new(), 42).unwrap_err(),
        fault(ArgumentFault::EmptyTabId)
    );
    assert_eq!(
        cef_on_url_change("tab-1".to_string(), String::new(), 42).unwrap_err(),
        fault(ArgumentFault::EmptyUrl)
    );

    let sent = cef_on_title_change("tab-1".to_string(), "Title".to_string(), 43).unwrap();
    assert_eq!(sent.topic, Topic::TitleChanged);
    assert_eq!(sent.payload.title, "Title");
    assert_eq!(sent.payload.timestamp, 43);
    assert!(cef_on_title_change("tab-1".to_string(), String::new(), 43).is_ok());
    assert_eq!(
        cef_on_title_change(String::new(), "Title".to_string(), 43).unwrap_err(),
        fault(ArgumentFault::EmptyTabId)
    );

    let sent = cef_on_loading_state_change("tab-1".to_string(), true, 44).unwrap();
    assert_eq!(sent.topic, Topic::LoadingStateChanged);
    assert!(sent.payload.is_loading);
    assert_eq!(sent.payload.timestamp, 44);
    assert!(!cef_on_loading_state_change("tab-1".to_string(), false, 44).unwrap().payload.is_loading);
    assert_eq!(
        cef_on_loading_state_change(String::new(), true, 44).unwrap_err(),
        fault(ArgumentFault::EmptyTabId)
    );

    let sent = cef_switch_tab("tab-2".to_string(), 45).unwrap();
    assert_eq!(sent.topic, Topic::TabSwitched);
    assert_eq!(sent.payload.tab_id, "tab-2");
    assert_eq!(sent.payload.timestamp, 45);
    assert_eq!(cef_switch_tab(String::new(), 45).unwrap_err(), fault(ArgumentFault::EmptyTabId));
}

#[test]
fn bounds_update_checks_identifier_then_size() {
    let sent = cef_update_bounds(
        "tab-1".to_string(),
        px(-10.0),
        px(20.0),
        px(1024.0),
        px(768.0),
        1701234567890,
    )
    .unwrap();
    assert_eq!(sent.topic, Topic::BoundsUpdated);
    assert_eq!(sent.payload.tab_id, "tab-1");
    assert_eq!(f64::from_bits(sent.payload.x), -10.0);
    assert_eq!(f64::from_bits(sent.payload.y), 20.0);
    assert_eq!(f64::from_bits(sent.payload.width), 1024.0);
    assert_eq!(f64::from_bits(sent.payload.height), 768.0);
    assert_eq!(sent.payload.timestamp, 1701234567890);

    assert_eq!(
        cef_update_bounds(String::new(), px(0.0), px(0.0), px(0.0), px(0.0), 1).unwrap_err(),
        fault(ArgumentFault::EmptyTabId)
    );
    for (w, h) in [(0.0, 1.0), (1.0, 0.0), (-0.0, 1.0), (1.0, -3.0), (f64::NEG_INFINITY, 1.0)] {
        assert_eq!(
            cef_update_bounds("tab-1".to_string(), px(0.0), px(0.0), px(w), px(h), 1).unwrap_err(),
            fault(ArgumentFault::NonPositiveSize)
        );
    }
    // A size that is not a number compares with nothing and passes.
    assert!(cef_update_bounds("tab-1".to_string(), px(0.0), px(0.0), px(f64::NAN), px(1.0), 1).is_ok());
    assert!(cef_update_bounds("tab-1".to_string(), px(0.0), px(0.0), px(f64::INFINITY), px(1.0), 1).is_ok());
}
