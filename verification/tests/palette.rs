use zed_embed::embed_palette::{
    embed_connection_count, embed_palette, note_embed_connection, push_embed_path,
    set_embed_palette, take_embed_path, EmbedBridge, EmbedPalette,
};

fn palette(first: u32) -> EmbedPalette {
    let mut colors = [0x1020_30ff; 13];
    colors[0] = first;
    EmbedPalette { colors }
}

#[test]
fn a_new_palette_bumps_the_version() {
    let mut bridge = EmbedBridge::new();
    assert!(embed_palette(&bridge).is_none());
    set_embed_palette(&mut bridge, palette(1));
    assert_eq!(embed_palette(&bridge), Some((1, palette(1))));
    set_embed_palette(&mut bridge, palette(2));
    assert_eq!(embed_palette(&bridge), Some((2, palette(2))));
    // The last color counts as the first does.
    let mut last = palette(2);
    last.colors[12] = 0;
    set_embed_palette(&mut bridge, last);
    assert_eq!(embed_palette(&bridge), Some((3, last)));
}

#[test]
fn resending_a_palette_changes_nothing() {
    let mut bridge = EmbedBridge::new();
    for _ in 0..5 {
        set_embed_palette(&mut bridge, palette(7));
    }
    assert_eq!(embed_palette(&bridge), Some((1, palette(7))));
    set_embed_palette(&mut bridge, palette(8));
    set_embed_palette(&mut bridge, palette(7));
    assert_eq!(embed_palette(&bridge), Some((3, palette(7))));
}

#[test]
fn connections_are_counted() {
    let mut bridge = EmbedBridge::new();
    assert_eq!(embed_connection_count(&bridge), 0);
    assert_eq!(note_embed_connection(&mut bridge), 1);
    assert_eq!(note_embed_connection(&mut bridge), 2);
    assert_eq!(embed_connection_count(&bridge), 2);
}

#[test]
fn paths_come_out_in_order() {
    let mut bridge = EmbedBridge::new();
    push_embed_path(&mut bridge, "/a".into());
    push_embed_path(&mut bridge, String::new());
    assert_eq!(take_embed_path(&mut bridge).as_deref(), Some("/a"));
    push_embed_path(&mut bridge, "/b".into());
    assert_eq!(take_embed_path(&mut bridge).as_deref(), Some(""));
    assert_eq!(take_embed_path(&mut bridge).as_deref(), Some("/b"));
    assert_eq!(take_embed_path(&mut bridge), None);
}
