use snippet_store::config::AppConfig;
use snippet_store::contract::Call;
use snippet_store::post::Post;
use snippet_store::record::Snippet;
use snippet_store::request::{
    DebugInfo, Gift, Headers, Payload, PrivateTariff, PublicTariff, Request, Stream,
};

#[test]
fn new_post_keeps_title_and_body() {
    let post = Post::new("Title", String::from("Body"));
    assert_eq!(post.title(), "Title");
    assert_eq!(post.body(), "Body");
    let same = Post::from_text("Title".to_string(), "Body".to_string());
    assert_eq!(same.title(), post.title());
    assert_eq!(same.body(), post.body());
    let empty = Post::new("", "");
    assert_eq!(empty.title(), "");
    assert_eq!(empty.body(), "");
}

#[test]
fn request_holds_its_parts() {
    let request = Request {
        kind: "success".to_string(),
        stream: Stream {
            user_id: "8d234120-0bda-49b2-b7e0-fbd3912f6cbf".to_string(),
            is_private: false,
            settings: 45345,
            shard_url: "https://n3.example.com/sapi".to_string(),
            public_tariff: PublicTariff {
                id: 1,
                price: 100,
                duration: "1h".to_string(),
                description: "test public tariff".to_string(),
            },
            private_tariff: PrivateTariff {
                client_price: 250,
                duration: "1m".to_string(),
                description: "test private tariff".to_string(),
            },
        },
        gifts: vec![Gift { id: 1, price: 2, description: "Gift 1".to_string() }],
        debug: DebugInfo {
            headers: Headers { accept: "*/*".to_string(), authorization: "SECRET-REDACTED".to_string() },
            payload: Payload { active: true, role: "user".to_string(), limit: 10 },
        },
    };
    assert_eq!(request.kind, "success");
    assert_eq!(request.stream.public_tariff.price, 100);
    assert_eq!(request.stream.private_tariff.client_price, 250);
    assert_eq!(request.gifts.len(), 1);
    assert_eq!(request.debug.payload.limit, 10);
    assert_eq!(request.debug.headers, Headers { accept: "*/*".to_string(), authorization: "SECRET-REDACTED".to_string() });
}

#[test]
fn calls_compare_by_their_values() {
    let s = Snippet { name: "a".to_string(), code: "c".to_string(), created_at: "t".to_string() };
    assert_eq!(Call::Save(s.clone()), Call::Save(s));
    assert_ne!(Call::Get("a".to_string()), Call::Delete("a".to_string()));
}

#[test]
fn default_settings() {
    let cfg = AppConfig::default();
    assert_eq!(
        cfg,
        AppConfig { debug: false, log_level: "info".to_string(), log_file: "app.log".to_string() }
    );
}

#[test]
fn debug_flag_turns_debugging_on_only() {
    let mut cfg = AppConfig::default();
    cfg.apply_debug_flag(false);
    assert!(!cfg.debug);
    cfg.apply_debug_flag(true);
    assert!(cfg.debug);
    cfg.apply_debug_flag(false);
    assert!(cfg.debug);
    assert_eq!(cfg.log_level, "info");
    assert_eq!(cfg.log_file, "app.log");
}
