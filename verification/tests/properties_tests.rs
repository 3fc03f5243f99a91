use cubely_core::properties::{
    map_server_properties, read_server_properties, update_server_properties, ServerProperties,
};

#[test]
fn parsing_skips_blanks_and_comments() {
    let content = "a=1\n# a comment\n\n  b = two \nno-equals-here\n";
    let pairs = map_server_properties(content);
    assert_eq!(pairs.len(), 2);
    assert_eq!(pairs[0], ("a".to_string(), "1".to_string()));
    assert_eq!(pairs[1], ("b ".to_string(), " two".to_string()));
}

#[test]
fn reading_takes_values_and_defaults() {
    let content = "motd=Hello World\nmax-players=30\npvp=false\nserver-port=70000\nview-distance=abc\n";
    let p = read_server_properties(content);
    assert_eq!(p.motd, "Hello World");
    assert_eq!(p.max_players, 30);
    assert!(!p.pvp);
    // out of range and unparsable values fall back to the defaults
    assert_eq!(p.server_port, 25565);
    assert_eq!(p.view_distance, 10);
    // absent keys read as the stock defaults
    assert!(p.online_mode);
    assert_eq!(p.difficulty, "easy");
    assert_eq!(p.gamemode, "survival");
    assert_eq!(p.spawn_protection, 16);
    assert_eq!(p.simulation_distance, 10);
}

#[test]
fn reading_lets_later_duplicates_win() {
    let p = read_server_properties("motd=first\nmotd=second\n");
    assert_eq!(p.motd, "second");
}

#[test]
fn reading_empty_text_gives_all_defaults() {
    let p = read_server_properties("");
    assert_eq!(p.motd, "");
    assert!(p.online_mode);
    assert_eq!(p.max_players, 20);
    assert_eq!(p.server_port, 25565);
}

fn sample_props() -> ServerProperties {
    ServerProperties {
        motd: "MyServer".to_string(),
        online_mode: true,
        max_players: 10,
        difficulty: "hard".to_string(),
        gamemode: "creative".to_string(),
        pvp: false,
        spawn_protection: 0,
        view_distance: 8,
        simulation_distance: 6,
        server_port: 25565,
    }
}

#[test]
fn updating_keeps_unknown_keys_and_writes_controlled_ones() {
    let content = "custom=keep\nmotd=old\n";
    let out = update_server_properties(content, &sample_props());
    assert_eq!(
        out,
        "# Generated / Updated by Cubely\n\
         custom=keep\n\
         motd=MyServer\n\
         online-mode=true\n\
         max-players=10\n\
         difficulty=hard\n\
         gamemode=creative\n\
         pvp=false\n\
         spawn-protection=0\n\
         view-distance=8\n\
         simulation-distance=6\n\
         server-port=25565\n"
    );
}

#[test]
fn update_then_read_round_trips() {
    let out = update_server_properties("server-ip=0.0.0.0\n", &sample_props());
    let p = read_server_properties(&out);
    assert_eq!(p.motd, "MyServer");
    assert!(p.online_mode);
    assert_eq!(p.max_players, 10);
    assert_eq!(p.difficulty, "hard");
    assert_eq!(p.gamemode, "creative");
    assert!(!p.pvp);
    assert_eq!(p.spawn_protection, 0);
    assert_eq!(p.view_distance, 8);
    assert_eq!(p.simulation_distance, 6);
    assert_eq!(p.server_port, 25565);
}
