use grabby::chat::{
    delivery_caption, embed_command_reply, extract_urls, oversized_message, should_embed_message,
    EmbedReply,
};
use grabby::config::{ConfigManager, ServerConfig};
use grabby::media::MediaDownloader;
use grabby::resize::Unshrinkable;

#[test]
fn urls_are_words_with_a_web_scheme() {
    let urls = extract_urls("look https://a.b/c and\thttp://x.y  ftp://no httpsnot http://z\n");
    assert_eq!(urls, vec!["https://a.b/c", "http://x.y", "http://z"]);
    assert!(extract_urls("").is_empty());
    assert!(extract_urls("   ").is_empty());
}

#[test]
fn auto_embed_only_in_listed_channels() {
    let mut manager = ConfigManager::new();
    assert!(!manager.is_auto_embed_channel("g1", "c1"));
    let mut cfg = ServerConfig::new("g1");
    cfg.add_auto_embed_channel("c1");
    cfg.add_auto_embed_channel("c1");
    assert_eq!(cfg.auto_embed_channels.len(), 1);
    assert!(cfg.is_auto_embed_channel("c1"));
    assert!(!cfg.is_auto_embed_channel("c2"));
    manager.set_server_config(cfg);
    assert!(manager.is_auto_embed_channel("g1", "c1"));
    assert!(!manager.is_auto_embed_channel("g2", "c1"));
    assert!(should_embed_message(&manager, false, Some("g1"), "c1"));
    assert!(!should_embed_message(&manager, true, Some("g1"), "c1"));
    assert!(!should_embed_message(&manager, false, None, "c1"));
    let fresh = manager.get_server_config("g9");
    assert_eq!(fresh.server_id, "g9");
    assert!(fresh.embed_enabled);
    assert!(fresh.auto_embed_channels.is_empty());
    manager.set_server_config(ServerConfig::new("g1"));
    assert!(!manager.is_auto_embed_channel("g1", "c1"));
    let d = ServerConfig::default();
    assert!(d.server_id.is_empty() && d.embed_enabled);
}

#[test]
fn embed_command_replies() {
    let d = MediaDownloader::new();
    assert_eq!(embed_command_reply(&d, ""), EmbedReply::Refuse("Please provide a valid URL.".to_string()));
    assert_eq!(embed_command_reply(&d, "http://a"), EmbedReply::Proceed("Downloading media...".to_string()));
}

#[test]
fn captions_report_left_out_files() {
    let u = Unshrinkable { filename: "big.mp4".to_string(), size: 12_345_678, reason: "x".to_string() };
    assert_eq!(delivery_caption("http://s", &Vec::new()), "http://s");
    assert_eq!(
        delivery_caption("http://s", &vec![u.clone()]),
        "http://s\nbig.mp4 (12,345,678 bytes) is over the size limit"
    );
    assert_eq!(
        oversized_message(&vec![u]),
        "Every file is over the size limit:\nbig.mp4 (12,345,678 bytes) is over the size limit"
    );
}

#[test]
fn unicode_white_space_splits_words() {
    let urls = extract_urls("http://a\u{3000}http://b\u{00A0}http://c\u{200B}d");
    assert_eq!(urls, vec!["http://a", "http://b", "http://c\u{200B}d"]);
}
