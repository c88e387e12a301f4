use sea_battle::error::GameError;
use sea_battle::instruction::GameInstruction;
use sea_battle::state::Move;

fn text(s: &str) -> Vec<u8> {
    let mut v = (s.len() as u32).to_le_bytes().to_vec();
    v.extend_from_slice(s.as_bytes());
    v
}

#[test]
fn unpack_empty_input_is_invalid() {
    assert!(matches!(
        GameInstruction::unpack(&[]),
        Err(GameError::InvalidInstruction)
    ));
}

#[test]
fn unpack_unknown_tag_is_invalid() {
    assert!(matches!(
        GameInstruction::unpack(&[19]),
        Err(GameError::InvalidInstruction)
    ));
    assert!(matches!(
        GameInstruction::unpack(&[255, 1, 2]),
        Err(GameError::InvalidInstruction)
    ));
}

#[test]
fn unpack_operations_without_payload() {
    assert_eq!(GameInstruction::unpack(&[4]), Ok(GameInstruction::ClaimvictoryTime));
    assert_eq!(GameInstruction::unpack(&[5, 9, 9]), Ok(GameInstruction::Abort));
    assert_eq!(GameInstruction::unpack(&[7]), Ok(GameInstruction::JoinTournament));
    assert_eq!(GameInstruction::unpack(&[12]), Ok(GameInstruction::Eliminate));
    assert_eq!(GameInstruction::unpack(&[13]), Ok(GameInstruction::EliminatePlay));
    assert_eq!(GameInstruction::unpack(&[17]), Ok(GameInstruction::DeleteAuth));
    assert_eq!(GameInstruction::unpack(&[18]), Ok(GameInstruction::Delete));
}

#[test]
fn unpack_move() {
    assert_eq!(
        GameInstruction::unpack(&[2, 45, 1]),
        Ok(GameInstruction::Play { mymove: Move { mymove: 45, opponents_last_move_is_hit: 1 } })
    );
    assert_eq!(
        GameInstruction::unpack(&[10, 11, 0]),
        Ok(GameInstruction::PlayTournament {
            mymove: Move { mymove: 11, opponents_last_move_is_hit: 0 }
        })
    );
    assert!(GameInstruction::unpack(&[2, 45]).is_err());
    assert!(GameInstruction::unpack(&[2, 45, 1, 0]).is_err());
}

#[test]
fn unpack_init_reads_every_field() {
    let mut input = vec![0u8];
    input.extend(text("s1"));
    input.extend(text("abcde"));
    input.extend(1000u64.to_le_bytes());
    input.extend([7u8; 32]);
    input.push(254);
    match GameInstruction::unpack(&input) {
        Ok(GameInstruction::InitGame { init }) => {
            assert_eq!(init.seed, "s1");
            assert_eq!(init.gameseed, "abcde");
            assert_eq!(init.lamports, 1000);
            assert_eq!(init.initializer_game_hash, [7u8; 32]);
            assert_eq!(init.bump, 254);
        }
        other => panic!("unexpected {:?}", other),
    }
    input[0] = 8;
    assert!(matches!(
        GameInstruction::unpack(&input),
        Ok(GameInstruction::MatchInitialize { .. })
    ));
    input.push(0);
    assert!(GameInstruction::unpack(&input).is_err());
}

#[test]
fn unpack_join_and_bad_text() {
    let mut input = vec![1u8];
    input.extend(text("héllo"));
    input.extend([3u8; 32]);
    match GameInstruction::unpack(&input) {
        Ok(GameInstruction::JoinGame { join }) => {
            assert_eq!(join.seed, "héllo");
            assert_eq!(join.guest_game_hash, [3u8; 32]);
        }
        other => panic!("unexpected {:?}", other),
    }
    let mut bad = vec![1u8];
    bad.extend(2u32.to_le_bytes());
    bad.extend([0xff, 0xfe]);
    bad.extend([3u8; 32]);
    assert!(GameInstruction::unpack(&bad).is_err());
    let mut short = vec![1u8];
    short.extend(100u32.to_le_bytes());
    short.extend([1u8; 10]);
    assert!(GameInstruction::unpack(&short).is_err());
}

#[test]
fn unpack_claim() {
    let mut input = vec![3u8, 1];
    input.extend(text("seed"));
    input.extend([1, 1, 1, 2, 10, 2, 1, 3, 5, 1, 5, 7, 2, 8, 4]);
    match GameInstruction::unpack(&input) {
        Ok(GameInstruction::ClaimvictoryScore { claim }) => {
            assert_eq!(claim.claims, 1);
            assert_eq!(claim.seed, "seed");
            assert_eq!((claim.s1ax, claim.s1cox, claim.s1coy), (1, 1, 1));
            assert_eq!((claim.s2ax, claim.s2cox, claim.s2coy), (2, 10, 2));
            assert_eq!((claim.s5ax, claim.s5cox, claim.s5coy), (2, 8, 4));
        }
        other => panic!("unexpected {:?}", other),
    }
}

#[test]
fn unpack_tournament_definition() {
    let mut input = vec![6u8, 1];
    input.extend(text("cup"));
    input.extend(500u64.to_le_bytes());
    input.extend(64u32.to_le_bytes());
    input.extend(9u64.to_le_bytes());
    input.extend(1_000u64.to_le_bytes());
    input.extend(3_600u64.to_le_bytes());
    input.extend(60u64.to_le_bytes());
    let mut tiers = [0u8; 30];
    tiers[0] = 1;
    tiers[5] = 32;
    input.extend(tiers);
    input.extend([50, 5, 10]);
    input.extend(4u16.to_le_bytes());
    match GameInstruction::unpack(&input) {
        Ok(GameInstruction::InitializeTournament { t }) => {
            assert_eq!(t.is_init, 1);
            assert_eq!(t.tournament_id, "cup");
            assert_eq!(t.entrance_fee, 500);
            assert_eq!(t.tournament_size, 64);
            assert_eq!(t.rent, 9);
            assert_eq!(t.starts_at, 1_000);
            assert_eq!(t.time_is_up, 3_600);
            assert_eq!(t.should_match_in, 60);
            assert_eq!(t.lvl_get, tiers);
            assert_eq!((t.winner_get, t.organizer_get, t.host_get), (50, 5, 10));
            assert_eq!(t.number_of_counters, 4);
        }
        other => panic!("unexpected {:?}", other),
    }
}

#[test]
fn unpack_registry_payloads() {
    let mut input = vec![14u8];
    input.extend(3u16.to_le_bytes());
    input.extend(1024u32.to_le_bytes());
    input.extend(text("cup"));
    input.push(255);
    input.extend(77u64.to_le_bytes());
    match GameInstruction::unpack(&input) {
        Ok(GameInstruction::InitCounter { t_counter }) => {
            assert_eq!(t_counter.counter_no, 3);
            assert_eq!(t_counter.capacity, 1024);
            assert_eq!(t_counter.tournament_id, "cup");
            assert_eq!(t_counter.bump, 255);
            assert_eq!(t_counter.rent, 77);
        }
        other => panic!("unexpected {:?}", other),
    }
    let mut cf = vec![15u8, 2];
    cf.extend([9u8; 256]);
    cf.extend(text("cup"));
    match GameInstruction::unpack(&cf) {
        Ok(GameInstruction::UpdateCounterFinder { c_finder }) => {
            assert_eq!(c_finder.finder_no, 2);
            assert_eq!(c_finder.counters, [9u8; 256]);
            assert_eq!(c_finder.tournament_id, "cup");
        }
        other => panic!("unexpected {:?}", other),
    }
    let mut ff = vec![16u8, 1];
    ff.extend([4u8; 32]);
    ff.extend(text("cup"));
    match GameInstruction::unpack(&ff) {
        Ok(GameInstruction::UpdateFinderFinder { f_finder }) => {
            assert_eq!(f_finder.finder_no, 1);
            assert_eq!(f_finder.counters, [4u8; 32]);
        }
        other => panic!("unexpected {:?}", other),
    }
}
