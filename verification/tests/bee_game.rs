use beet::bee_game::BeeGame;

#[test]
fn despawn_one_or_all() {
    let mut game: BeeGame<&str> = BeeGame::new();
    game.insert(1, "bee");
    game.insert(2, "flower");
    game.insert(3, "bee");
    let removed = game.despawn(Some(2));
    assert_eq!(removed.len(), 1);
    assert_eq!(removed.get(&2), Some(&"flower"));
    assert_eq!(game.elements.len(), 2);
    let removed = game.despawn(Some(9));
    assert!(removed.is_empty());
    let removed = game.despawn(None);
    assert_eq!(removed.len(), 2);
    assert!(game.elements.is_empty());
}

#[test]
fn update_despawns_then_creates() {
    let mut game: BeeGame<&str> = BeeGame::new();
    game.insert(1, "bee");
    game.insert(2, "flower");
    let removed = game.update(&vec![Some(1), None, Some(5)], vec![(7, "bee"), (8, "flower"), (7, "bee2")]);
    assert_eq!(removed.len(), 3);
    assert_eq!(removed[0].get(&1), Some(&"bee"));
    assert_eq!(removed[1].len(), 1);
    assert_eq!(removed[1].get(&2), Some(&"flower"));
    assert!(removed[2].is_empty());
    assert_eq!(game.elements.len(), 2);
    assert_eq!(game.elements.get(&7), Some(&"bee2"));
    assert_eq!(game.elements.get(&8), Some(&"flower"));
}
