use agent_platform::{
    close_agent, create_agent, lock_memory, set_active, set_card, set_memory, transfer_owner,
    AgentActiveSet, AgentClosed, AgentCreated, AgentRegistry, CardSet, CloseAgent, Closing,
    CreateAgent,
    MemoryLocked, MemoryUpdated, OwnerTransferred, PlatformError, Pubkey, UpdateAgent,
    FLAG_ACTIVE, FLAG_HAS_STAKING, FLAG_LOCKED,
};

const CID_V0: &[u8] = b"QmYwAPJzv5CZsnA625s3Xf2nemtYgPpHdWEz79ojWnPbdG";
const CID_V1: &[u8] = b"bafybeigdyrzt5sfp7udm7hu76uh7y26nf3efuylqabf3oclgtqy55fbzdi";

fn key(b: u8) -> Pubkey {
    Pubkey::new_from_array([b; 32])
}

fn blank() -> AgentRegistry {
    AgentRegistry {
        version: 0,
        creator: Pubkey::default(),
        owner: Pubkey::default(),
        memory_mode: 0,
        memory_ptr_len: 0,
        memory_ptr: [0u8; 96],
        memory_hash: [0u8; 32],
        card_uri_len: 0,
        card_uri: [0u8; 96],
        card_hash: [0u8; 32],
        flags: 0,
        bump: 0,
        _padding: [0u8; 7],
    }
}

fn padded(src: &[u8]) -> [u8; 96] {
    let mut buf = [0u8; 96];
    buf[..src.len()].copy_from_slice(src);
    buf
}

fn new_ctx(creator: Pubkey) -> CreateAgent {
    CreateAgent { agent: blank(), creator_signer: creator, bump: 254 }
}

/// An agent of `key(1)` with the card `https://x.io/card.json`, staking on, no memory.
fn agent() -> AgentRegistry {
    let mut ctx = new_ctx(key(1));
    let made = create_agent(
        &mut ctx,
        key(1),
        "https://x.io/card.json".to_string(),
        [3u8; 32],
        None,
        None,
        None,
        None,
    );
    assert_eq!(made, Ok(AgentCreated { creator: key(1), owner: key(1) }));
    ctx.agent
}

fn as_owner(agent: AgentRegistry) -> UpdateAgent {
    UpdateAgent { agent, owner: agent.owner }
}

#[test]
fn create_agent_fills_the_record() {
    let mut ctx = new_ctx(key(1));
    let made = create_agent(
        &mut ctx,
        key(1),
        "https://x.io/card.json".to_string(),
        [3u8; 32],
        Some(true),
        None,
        None,
        None,
    );
    assert_eq!(made, Ok(AgentCreated { creator: key(1), owner: key(1) }));
    assert_eq!(
        ctx.agent,
        AgentRegistry {
            version: 1,
            creator: key(1),
            owner: key(1),
            memory_mode: 0,
            memory_ptr_len: 0,
            memory_ptr: [0u8; 96],
            memory_hash: [0u8; 32],
            card_uri_len: 22,
            card_uri: padded(b"https://x.io/card.json"),
            card_hash: [3u8; 32],
            flags: FLAG_ACTIVE | FLAG_HAS_STAKING,
            bump: 254,
            _padding: [0u8; 7],
        }
    );
    assert_eq!(ctx.agent.flags, 5);
    assert_eq!(ctx.creator_signer, key(1));
    assert_eq!(ctx.bump, 254);
    assert!(ctx.agent.is_active());
    assert!(ctx.agent.has_staking());
    assert!(!ctx.agent.is_locked());
    assert_eq!(ctx.agent.card_uri_bytes(), Some(b"https://x.io/card.json".to_vec()));
    assert_eq!(ctx.agent.memory_ptr_bytes(), Some(vec![]));
    assert_eq!(AgentRegistry::SPACE, 336);
}

#[test]
fn create_agent_overwrites_what_the_record_held() {
    let mut ctx = new_ctx(key(1));
    ctx.agent.memory_ptr = [9u8; 96];
    ctx.agent.memory_ptr_len = 40;
    ctx.agent.memory_hash = [9u8; 32];
    ctx.agent.memory_mode = 2;
    ctx.agent.card_uri = [9u8; 96];
    ctx.agent.flags = 0xffff_ffff;
    ctx.agent._padding = [9u8; 7];
    let made = create_agent(
        &mut ctx,
        key(1),
        "ipfs://x".to_string(),
        [0u8; 32],
        Some(false),
        None,
        Some(b"ignored".to_vec()),
        Some([8u8; 32]),
    );
    assert!(made.is_ok());
    let mut expected = blank();
    expected.version = 1;
    expected.creator = key(1);
    expected.owner = key(1);
    expected.card_uri_len = 8;
    expected.card_uri = padded(b"ipfs://x");
    expected.flags = FLAG_ACTIVE;
    expected.bump = 254;
    assert_eq!(ctx.agent, expected);
}

#[test]
fn create_agent_has_staking_unless_declined() {
    for (asked, flags) in [(None, 5u32), (Some(true), 5), (Some(false), 1)] {
        let mut ctx = new_ctx(key(1));
        let made = create_agent(
            &mut ctx,
            key(1),
            "ipfs://card".to_string(),
            [0u8; 32],
            asked,
            None,
            None,
            None,
        );
        assert!(made.is_ok());
        assert_eq!(ctx.agent.flags, flags);
        assert!(ctx.agent.is_active());
        assert_eq!(ctx.agent.has_staking(), asked != Some(false));
    }
}

#[test]
fn create_agent_is_for_the_creator_alone() {
    let mut ctx = new_ctx(key(2));
    let before = ctx;
    let made = create_agent(
        &mut ctx,
        key(1),
        "https://x.io/card.json".to_string(),
        [3u8; 32],
        None,
        None,
        None,
        None,
    );
    assert_eq!(made, Err(PlatformError::Unauthorized));
    assert_eq!(ctx, before);
}

fn create_with_card(card: &str) -> Result<AgentCreated, PlatformError> {
    let mut ctx = new_ctx(key(1));
    let before = ctx;
    let made = create_agent(&mut ctx, key(1), card.to_string(), [3u8; 32], None, None, None, None);
    if made.is_err() {
        assert_eq!(ctx, before);
    } else {
        assert_eq!(ctx.agent.card_uri_bytes(), Some(card.as_bytes().to_vec()));
    }
    made
}

#[test]
fn create_agent_checks_the_card() {
    assert_eq!(create_with_card(""), Err(PlatformError::InvalidLength));
    assert_eq!(create_with_card("http://x.io/card.json"), Err(PlatformError::InsecureUrl));
    assert_eq!(create_with_card("ftp://x.io"), Err(PlatformError::InsecureUrl));
    assert_eq!(create_with_card("HTTPS://x.io"), Err(PlatformError::InsecureUrl));
    assert_eq!(create_with_card(" https://x.io"), Err(PlatformError::InsecureUrl));
    assert_eq!(create_with_card("https:/"), Err(PlatformError::InsecureUrl));
    assert_eq!(create_with_card("ipfs:/"), Err(PlatformError::InsecureUrl));
    assert!(create_with_card("https://").is_ok());
    assert!(create_with_card("ipfs://").is_ok());
    assert!(create_with_card("ipfs://bafybeigdyrzt5sfp7udm7hu76uh7y26nf3efuylqabf3oclgtqy55fbzdi").is_ok());
    let longest = format!("https://{}", "a".repeat(88));
    assert_eq!(longest.len(), 96);
    assert!(create_with_card(&longest).is_ok());
    let too_long = format!("https://{}", "a".repeat(89));
    assert_eq!(create_with_card(&too_long), Err(PlatformError::InvalidLength));
    let too_long_and_insecure = "x".repeat(97);
    assert_eq!(create_with_card(&too_long_and_insecure), Err(PlatformError::InvalidLength));
}

#[test]
fn create_agent_counts_the_card_in_bytes() {
    // 8 + 44 two-byte characters are 96 bytes in 52 characters.
    let fits = format!("https://{}", "é".repeat(44));
    assert_eq!(fits.len(), 96);
    assert!(create_with_card(&fits).is_ok());
    let too_long = format!("https://{}a", "é".repeat(44));
    assert_eq!(too_long.chars().count(), 53);
    assert_eq!(create_with_card(&too_long), Err(PlatformError::InvalidLength));
}

fn create_with_memory(
    mode: Option<u8>,
    ptr: Option<&[u8]>,
    hash: Option<[u8; 32]>,
) -> (Result<AgentCreated, PlatformError>, AgentRegistry) {
    let mut ctx = new_ctx(key(1));
    let before = ctx;
    let made = create_agent(
        &mut ctx,
        key(1),
        "https://x.io/card.json".to_string(),
        [3u8; 32],
        None,
        mode,
        ptr.map(|p| p.to_vec()),
        hash,
    );
    if made.is_err() {
        assert_eq!(ctx, before);
    }
    (made, ctx.agent)
}

#[test]
fn create_agent_stores_the_memory_given() {
    let (made, agent) = create_with_memory(Some(1), Some(CID_V1), None);
    assert!(made.is_ok());
    assert_eq!(agent.memory_mode, 1);
    assert_eq!(agent.memory_ptr_len, 59);
    assert_eq!(agent.memory_ptr, padded(CID_V1));
    assert_eq!(agent.memory_hash, [0u8; 32]);
    assert_eq!(agent.memory_ptr_bytes(), Some(CID_V1.to_vec()));

    let (made, agent) = create_with_memory(Some(2), Some(b"k51qzi5uqu5dl"), Some([4u8; 32]));
    assert!(made.is_ok());
    assert_eq!(agent.memory_mode, 2);
    assert_eq!(agent.memory_ptr, padded(b"k51qzi5uqu5dl"));
    assert_eq!(agent.memory_hash, [4u8; 32]);

    let (made, agent) = create_with_memory(Some(3), Some(b"https://m.io/mem"), Some([5u8; 32]));
    assert!(made.is_ok());
    assert_eq!(agent.memory_mode, 3);
    assert_eq!(agent.memory_ptr_bytes(), Some(b"https://m.io/mem".to_vec()));
    assert_eq!(agent.memory_hash, [5u8; 32]);

    let (made, agent) = create_with_memory(Some(0), Some(b"x"), None);
    assert!(made.is_ok());
    assert_eq!(agent.memory_mode, 0);
    assert_eq!(agent.memory_ptr_len, 1);

    let (made, agent) = create_with_memory(Some(1), Some(&[7u8; 96]), None);
    assert!(made.is_ok());
    assert_eq!(agent.memory_ptr, [7u8; 96]);
    assert_eq!(agent.memory_ptr_len, 96);
}

#[test]
fn create_agent_without_a_mode_has_no_memory() {
    let (made, agent) = create_with_memory(None, Some(b"https://m.io"), Some([5u8; 32]));
    assert!(made.is_ok());
    assert_eq!(agent.memory_mode, 0);
    assert_eq!(agent.memory_ptr_len, 0);
    assert_eq!(agent.memory_ptr, [0u8; 96]);
    assert_eq!(agent.memory_hash, [0u8; 32]);
}

#[test]
fn create_agent_checks_the_memory() {
    let hash = Some([5u8; 32]);
    assert_eq!(create_with_memory(Some(1), None, None).0, Err(PlatformError::InvalidMemoryFields));
    assert_eq!(create_with_memory(Some(9), None, None).0, Err(PlatformError::InvalidMemoryFields));
    assert_eq!(create_with_memory(Some(1), Some(b""), None).0, Err(PlatformError::InvalidLength));
    assert_eq!(
        create_with_memory(Some(1), Some(&[b'a'; 97]), None).0,
        Err(PlatformError::InvalidLength)
    );
    assert_eq!(
        create_with_memory(Some(9), Some(&[b'a'; 97]), None).0,
        Err(PlatformError::InvalidLength)
    );
    assert_eq!(
        create_with_memory(Some(4), Some(b"manifest"), hash).0,
        Err(PlatformError::InvalidMemoryFields)
    );
    assert_eq!(
        create_with_memory(Some(5), Some(b"x"), hash).0,
        Err(PlatformError::InvalidMemoryFields)
    );
    assert_eq!(
        create_with_memory(Some(3), Some(b"http://m.io"), hash).0,
        Err(PlatformError::InsecureUrl)
    );
    assert_eq!(
        create_with_memory(Some(3), Some(b"ipfs://m"), hash).0,
        Err(PlatformError::InsecureUrl)
    );
    assert_eq!(
        create_with_memory(Some(3), Some(b"https://m.io/\xff"), hash).0,
        Err(PlatformError::InvalidMemoryFields)
    );
    assert_eq!(
        create_with_memory(Some(3), Some(b"\xffhttp"), hash).0,
        Err(PlatformError::InvalidMemoryFields)
    );
}

#[test]
fn create_agent_looks_at_the_memory_before_the_card() {
    let mut ctx = new_ctx(key(1));
    let made = create_agent(
        &mut ctx,
        key(1),
        "http://insecure".to_string(),
        [3u8; 32],
        None,
        Some(1),
        None,
        None,
    );
    assert_eq!(made, Err(PlatformError::InvalidMemoryFields));
    let mut ctx = new_ctx(key(2));
    let made = create_agent(
        &mut ctx,
        key(1),
        "http://insecure".to_string(),
        [3u8; 32],
        None,
        Some(1),
        None,
        None,
    );
    assert_eq!(made, Err(PlatformError::Unauthorized));
}

#[test]
fn set_card_replaces_the_card() {
    let mut ctx = as_owner(agent());
    let before = ctx.agent;
    let uri = "ipfs://bafybeigdyrzt5sfp7udm7hu76uh7y26nf3efuylqabf3oclgtqy55fbzdi";
    let set = set_card(&mut ctx, uri.to_string(), [6u8; 32]);
    assert_eq!(
        set,
        Ok(CardSet {
            creator: key(1),
            card_uri: "ipfs://bafybeigdyrzt5sfp7udm7hu7".to_string(),
            card_hash: [6u8; 32],
        })
    );
    assert_eq!(
        ctx.agent,
        AgentRegistry {
            card_uri_len: 66,
            card_uri: padded(uri.as_bytes()),
            card_hash: [6u8; 32],
            ..before
        }
    );
    assert_eq!(ctx.agent.card_uri_bytes(), Some(uri.as_bytes().to_vec()));
    assert_eq!(ctx.owner, key(1));
}

#[test]
fn set_card_with_a_shorter_uri_zeros_the_rest() {
    let mut ctx = as_owner(agent());
    let longest = format!("https://{}", "a".repeat(88));
    assert!(set_card(&mut ctx, longest.clone(), [6u8; 32]).is_ok());
    assert_eq!(ctx.agent.card_uri_len, 96);
    assert_eq!(ctx.agent.card_uri_bytes(), Some(longest.into_bytes()));
    assert!(set_card(&mut ctx, "https://b".to_string(), [7u8; 32]).is_ok());
    assert_eq!(ctx.agent.card_uri, padded(b"https://b"));
    assert_eq!(ctx.agent.card_uri_len, 9);
    assert_eq!(ctx.agent.card_hash, [7u8; 32]);
}

#[test]
fn set_card_checks_the_card() {
    for (uri, error) in [
        ("".to_string(), PlatformError::InvalidLength),
        ("x".repeat(97), PlatformError::InvalidLength),
        (format!("https://{}", "a".repeat(89)), PlatformError::InvalidLength),
        ("http://x.io".to_string(), PlatformError::InsecureUrl),
        ("ipfs:/x".to_string(), PlatformError::InsecureUrl),
        ("x".repeat(96), PlatformError::InsecureUrl),
    ] {
        let mut ctx = as_owner(agent());
        let before = ctx;
        assert_eq!(set_card(&mut ctx, uri, [6u8; 32]), Err(error));
        assert_eq!(ctx, before);
    }
}

#[test]
fn set_card_is_for_the_owner_alone() {
    let mut ctx = UpdateAgent { agent: agent(), owner: key(2) };
    let before = ctx;
    assert_eq!(
        set_card(&mut ctx, "https://y.io".to_string(), [6u8; 32]),
        Err(PlatformError::Unauthorized)
    );
    assert_eq!(set_card(&mut ctx, "".to_string(), [6u8; 32]), Err(PlatformError::Unauthorized));
    assert_eq!(ctx, before);
}

fn try_memory(mode: u8, ptr: &[u8], hash: Option<[u8; 32]>) -> Result<MemoryUpdated, PlatformError> {
    let mut ctx = as_owner(agent());
    let before = ctx;
    let set = set_memory(&mut ctx, mode, ptr.to_vec(), hash);
    if set.is_err() {
        assert_eq!(ctx, before);
    } else {
        let stored = if mode >= 2 { hash.unwrap() } else { [0u8; 32] };
        assert_eq!(
            ctx.agent,
            AgentRegistry {
                memory_mode: mode,
                memory_ptr_len: ptr.len() as u8,
                memory_ptr: padded(ptr),
                memory_hash: stored,
                ..before.agent
            }
        );
        assert_eq!(ctx.agent.memory_ptr_bytes(), Some(ptr.to_vec()));
        assert_eq!(ctx.owner, before.owner);
    }
    set
}

const SET: Option<[u8; 32]> = Some([5u8; 32]);
const ZERO: Option<[u8; 32]> = Some([0u8; 32]);
const REFUSED: Result<MemoryUpdated, PlatformError> = Err(PlatformError::InvalidMemoryFields);

#[test]
fn set_memory_without_a_mode_takes_no_pointer_and_no_hash() {
    assert!(try_memory(0, b"", None).is_ok());
    assert!(try_memory(0, b"", ZERO).is_ok());
    assert_eq!(try_memory(0, b"x", None), REFUSED);
    assert_eq!(try_memory(0, b"", SET), REFUSED);
    assert_eq!(try_memory(0, b"x", SET), REFUSED);
}

#[test]
fn set_memory_with_a_cid_takes_its_shape_and_no_hash() {
    assert!(try_memory(1, CID_V1, None).is_ok());
    assert!(try_memory(1, CID_V0, None).is_ok());
    assert!(try_memory(1, CID_V1, ZERO).is_ok());
    assert_eq!(try_memory(1, b"", None), REFUSED);
    assert_eq!(try_memory(1, CID_V1, SET), REFUSED);
    assert_eq!(try_memory(1, b"bafyBEIG", None), REFUSED);
    assert_eq!(try_memory(1, &CID_V0[..45], None), REFUSED);
    assert_eq!(try_memory(1, b"https://x.io", None), REFUSED);
    assert_eq!(try_memory(1, b"bafy\xc3\xa9", None), REFUSED);
}

#[test]
fn set_memory_with_a_name_or_a_manifest_takes_a_pointer_and_a_hash() {
    for mode in [2u8, 4u8] {
        assert!(try_memory(mode, b"k51qzi5uqu5dl", SET).is_ok());
        assert!(try_memory(mode, b"\xff\x00 any bytes", SET).is_ok());
        assert!(try_memory(mode, &[1u8; 96], SET).is_ok());
        assert_eq!(try_memory(mode, b"", SET), REFUSED);
        assert_eq!(try_memory(mode, b"k51qzi5uqu5dl", None), REFUSED);
        assert_eq!(try_memory(mode, b"k51qzi5uqu5dl", ZERO), REFUSED);
    }
}

#[test]
fn set_memory_with_a_url_takes_https_and_a_hash() {
    assert!(try_memory(3, b"https://m.io/mem", SET).is_ok());
    assert!(try_memory(3, b"https://", SET).is_ok());
    assert!(try_memory(3, "https://é.io".as_bytes(), SET).is_ok());
    assert_eq!(try_memory(3, b"http://m.io/mem", SET), Err(PlatformError::InsecureUrl));
    assert_eq!(try_memory(3, b"ipfs://m", SET), Err(PlatformError::InsecureUrl));
    assert_eq!(try_memory(3, b"https:/", SET), Err(PlatformError::InsecureUrl));
    assert_eq!(try_memory(3, b"https://m.io/\xff", SET), REFUSED);
    assert_eq!(try_memory(3, b"\xff", SET), REFUSED);
    // In turn: a surrogate, an encoding longer than need be, a value past the
    // last character, a character cut short.
    assert_eq!(try_memory(3, b"https://\xed\xa0\x80", SET), REFUSED);
    assert_eq!(try_memory(3, b"https://\xc0\x80", SET), REFUSED);
    assert_eq!(try_memory(3, b"https://\xf4\x90\x80\x80", SET), REFUSED);
    assert_eq!(try_memory(3, b"https://\xe2\x82", SET), REFUSED);
    assert!(try_memory(3, b"https://\xf4\x8f\xbf\xbf", SET).is_ok());
    assert!(try_memory(3, b"https://\xe2\x82\xac", SET).is_ok());
    assert_eq!(try_memory(3, b"", SET), REFUSED);
    assert_eq!(try_memory(3, b"https://m.io/mem", None), REFUSED);
    assert_eq!(try_memory(3, b"https://m.io/mem", ZERO), REFUSED);
    assert_eq!(try_memory(3, b"http://m.io/mem", None), REFUSED);
    assert_eq!(try_memory(3, b"http://m.io/mem", ZERO), REFUSED);
}

#[test]
fn set_memory_knows_five_modes() {
    assert_eq!(try_memory(5, b"x", SET), REFUSED);
    assert_eq!(try_memory(5, b"", None), REFUSED);
    assert_eq!(try_memory(255, b"https://m.io", SET), REFUSED);
}

#[test]
fn set_memory_takes_what_the_buffer_holds() {
    let mut longest = b"https://".to_vec();
    longest.resize(96, b'm');
    assert!(try_memory(3, &longest, SET).is_ok());
    longest.push(b'm');
    for mode in 0u8..=6 {
        assert_eq!(try_memory(mode, &longest, SET), Err(PlatformError::InvalidLength));
        assert_eq!(try_memory(mode, &longest, None), Err(PlatformError::InvalidLength));
    }
}

#[test]
fn set_memory_tells_what_it_stored() {
    assert_eq!(
        try_memory(3, b"https://m.io/a/pointer/that/is/longer/than/the/preview", SET),
        Ok(MemoryUpdated {
            creator: key(1),
            mode: 3,
            ptr_preview: "https://m.io/a/pointer/that/is/l".to_string(),
            hash: [5u8; 32],
        })
    );
    assert_eq!(
        try_memory(1, CID_V0, ZERO),
        Ok(MemoryUpdated {
            creator: key(1),
            mode: 1,
            ptr_preview: "QmYwAPJzv5CZsnA625s3Xf2nemtYgPpH".to_string(),
            hash: [0u8; 32],
        })
    );
    assert_eq!(
        try_memory(0, b"", None),
        Ok(MemoryUpdated { creator: key(1), mode: 0, ptr_preview: String::new(), hash: [0u8; 32] })
    );
    assert_eq!(
        try_memory(2, b"\xffname", SET),
        Ok(MemoryUpdated {
            creator: key(1),
            mode: 2,
            ptr_preview: "\u{fffd}name".to_string(),
            hash: [5u8; 32],
        })
    );
}

#[test]
fn set_memory_replaces_what_was_there() {
    let mut ctx = as_owner(agent());
    assert!(set_memory(&mut ctx, 2, vec![1u8; 96], SET).is_ok());
    assert!(set_memory(&mut ctx, 1, CID_V0.to_vec(), None).is_ok());
    assert_eq!(ctx.agent.memory_mode, 1);
    assert_eq!(ctx.agent.memory_ptr, padded(CID_V0));
    assert_eq!(ctx.agent.memory_ptr_len, 46);
    assert_eq!(ctx.agent.memory_hash, [0u8; 32]);
    assert!(set_memory(&mut ctx, 0, vec![], None).is_ok());
    assert_eq!(ctx.agent.memory_mode, 0);
    assert_eq!(ctx.agent.memory_ptr, [0u8; 96]);
    assert_eq!(ctx.agent.memory_ptr_len, 0);
}

#[test]
fn set_memory_is_for_the_owner_alone() {
    let mut ctx = UpdateAgent { agent: agent(), owner: key(2) };
    let before = ctx;
    assert_eq!(
        set_memory(&mut ctx, 1, CID_V1.to_vec(), None),
        Err(PlatformError::Unauthorized)
    );
    assert_eq!(set_memory(&mut ctx, 9, vec![0u8; 200], None), Err(PlatformError::Unauthorized));
    assert_eq!(ctx, before);
}

#[test]
fn lock_memory_sets_the_lock_and_nothing_else() {
    let mut ctx = as_owner(agent());
    let before = ctx.agent;
    assert_eq!(lock_memory(&mut ctx), Ok(MemoryLocked { creator: key(1) }));
    assert_eq!(ctx.agent, AgentRegistry { flags: before.flags | FLAG_LOCKED, ..before });
    assert_eq!(ctx.agent.flags, 7);
    assert!(ctx.agent.is_locked());
    assert!(ctx.agent.is_active());
    assert!(ctx.agent.has_staking());
    let locked = ctx.agent;
    assert_eq!(lock_memory(&mut ctx), Ok(MemoryLocked { creator: key(1) }));
    assert_eq!(ctx.agent, locked);
}

#[test]
fn lock_memory_is_for_the_owner_alone() {
    let mut ctx = UpdateAgent { agent: agent(), owner: key(2) };
    let before = ctx;
    assert_eq!(lock_memory(&mut ctx), Err(PlatformError::Unauthorized));
    assert_eq!(ctx, before);
    assert!(!ctx.agent.is_locked());
}

#[test]
fn locked_memory_refuses_every_change() {
    let mut ctx = as_owner(agent());
    assert!(set_memory(&mut ctx, 1, CID_V1.to_vec(), None).is_ok());
    assert!(lock_memory(&mut ctx).is_ok());
    let locked = ctx;
    let pointers: [&[u8]; 5] = [b"", CID_V0, b"https://m.io", b"k51", &[b'a'; 97]];
    for mode in 0u8..=6 {
        for ptr in pointers {
            for hash in [None, ZERO, SET] {
                assert_eq!(
                    set_memory(&mut ctx, mode, ptr.to_vec(), hash),
                    Err(PlatformError::MemoryLocked)
                );
                assert_eq!(ctx, locked);
            }
        }
    }
}

#[test]
fn a_lock_outlasts_every_other_change() {
    let mut ctx = as_owner(agent());
    assert!(set_memory(&mut ctx, 1, CID_V1.to_vec(), None).is_ok());
    assert!(lock_memory(&mut ctx).is_ok());
    assert!(set_card(&mut ctx, "https://y.io".to_string(), [9u8; 32]).is_ok());
    assert!(ctx.agent.is_locked());
    assert!(set_active(&mut ctx, false).is_ok());
    assert!(ctx.agent.is_locked());
    assert!(set_active(&mut ctx, true).is_ok());
    assert!(ctx.agent.is_locked());
    assert!(transfer_owner(&mut ctx, key(2)).is_ok());
    assert!(ctx.agent.is_locked());
    let mut ctx = as_owner(ctx.agent);
    assert_eq!(ctx.owner, key(2));
    assert_eq!(set_memory(&mut ctx, 0, vec![], None), Err(PlatformError::MemoryLocked));
    assert_eq!(ctx.agent.memory_mode, 1);
    assert_eq!(ctx.agent.memory_ptr_bytes(), Some(CID_V1.to_vec()));
}

#[test]
fn a_locked_agent_tells_a_stranger_that_it_is_not_the_owner() {
    let mut ctx = as_owner(agent());
    assert!(lock_memory(&mut ctx).is_ok());
    let mut ctx = UpdateAgent { agent: ctx.agent, owner: key(2) };
    assert_eq!(set_memory(&mut ctx, 0, vec![], None), Err(PlatformError::Unauthorized));
}

#[test]
fn set_active_changes_one_flag() {
    let mut ctx = as_owner(agent());
    assert!(lock_memory(&mut ctx).is_ok());
    let before = ctx.agent;
    assert_eq!(
        set_active(&mut ctx, false),
        Ok(AgentActiveSet { creator: key(1), is_active: false })
    );
    assert_eq!(ctx.agent, AgentRegistry { flags: FLAG_LOCKED | FLAG_HAS_STAKING, ..before });
    assert!(!ctx.agent.is_active());
    assert_eq!(
        set_active(&mut ctx, false),
        Ok(AgentActiveSet { creator: key(1), is_active: false })
    );
    assert_eq!(ctx.agent.flags, 6);
    assert_eq!(set_active(&mut ctx, true), Ok(AgentActiveSet { creator: key(1), is_active: true }));
    assert_eq!(ctx.agent, before);
    assert_eq!(set_active(&mut ctx, true), Ok(AgentActiveSet { creator: key(1), is_active: true }));
    assert_eq!(ctx.agent, before);
}

#[test]
fn set_active_keeps_the_bits_it_does_not_know() {
    let mut ctx = as_owner(agent());
    ctx.agent.flags = 0xffff_fff0 | FLAG_ACTIVE;
    assert!(set_active(&mut ctx, false).is_ok());
    assert_eq!(ctx.agent.flags, 0xffff_fff0);
    assert!(set_active(&mut ctx, true).is_ok());
    assert_eq!(ctx.agent.flags, 0xffff_fff1);
}

#[test]
fn set_active_is_for_the_owner_alone() {
    let mut ctx = UpdateAgent { agent: agent(), owner: key(2) };
    let before = ctx;
    assert_eq!(set_active(&mut ctx, false), Err(PlatformError::Unauthorized));
    assert_eq!(ctx, before);
}

fn with_flags(flags: u32) -> AgentRegistry {
    AgentRegistry { flags, ..agent() }
}

#[test]
fn close_agent_takes_an_agent_that_is_off_and_has_no_staking() {
    let closed = Ok(Closing { recipient: key(8), event: AgentClosed { creator: key(1) } });
    for flags in 0u32..8 {
        let ctx = CloseAgent { agent: with_flags(flags), owner: key(1), recipient: key(8) };
        let expected = if flags & FLAG_ACTIVE != 0 {
            Err(PlatformError::AgentActive)
        } else if flags & FLAG_HAS_STAKING != 0 {
            Err(PlatformError::StakingEnabled)
        } else {
            closed
        };
        assert_eq!(close_agent(&ctx), expected);
        assert_eq!(close_agent(&ctx).is_ok(), flags == 0 || flags == FLAG_LOCKED);
    }
}

#[test]
fn close_agent_is_for_the_owner_alone() {
    for flags in 0u32..8 {
        let ctx = CloseAgent { agent: with_flags(flags), owner: key(2), recipient: key(2) };
        assert_eq!(close_agent(&ctx), Err(PlatformError::Unauthorized));
    }
}

#[test]
fn an_agent_without_staking_can_be_switched_off_and_closed() {
    let mut ctx = new_ctx(key(1));
    let made = create_agent(
        &mut ctx,
        key(1),
        "https://x.io/card.json".to_string(),
        [3u8; 32],
        Some(false),
        None,
        None,
        None,
    );
    assert!(made.is_ok());
    let close = CloseAgent { agent: ctx.agent, owner: key(1), recipient: key(8) };
    assert_eq!(close_agent(&close), Err(PlatformError::AgentActive));
    let mut update = as_owner(ctx.agent);
    assert!(set_active(&mut update, false).is_ok());
    let close = CloseAgent { agent: update.agent, owner: key(1), recipient: key(8) };
    assert_eq!(
        close_agent(&close),
        Ok(Closing { recipient: key(8), event: AgentClosed { creator: key(1) } })
    );
}

#[test]
fn transfer_owner_changes_the_owner_and_keeps_the_creator() {
    let mut ctx = as_owner(agent());
    let before = ctx.agent;
    assert_eq!(
        transfer_owner(&mut ctx, key(2)),
        Ok(OwnerTransferred { creator: key(1), old_owner: key(1), new_owner: key(2) })
    );
    assert_eq!(ctx.agent, AgentRegistry { owner: key(2), ..before });
    assert_eq!(ctx.agent.creator, key(1));
    assert_eq!(ctx.owner, key(1));
    // The signer of the transfer has no say any more.
    assert_eq!(set_active(&mut ctx, false), Err(PlatformError::Unauthorized));
    assert_eq!(transfer_owner(&mut ctx, key(1)), Err(PlatformError::Unauthorized));
    let mut ctx = as_owner(ctx.agent);
    assert_eq!(
        transfer_owner(&mut ctx, key(3)),
        Ok(OwnerTransferred { creator: key(1), old_owner: key(2), new_owner: key(3) })
    );
}

#[test]
fn transfer_owner_refuses_the_zero_key() {
    let mut ctx = as_owner(agent());
    let before = ctx;
    assert_eq!(transfer_owner(&mut ctx, Pubkey::default()), Err(PlatformError::InvalidOwner));
    assert_eq!(ctx, before);
}

#[test]
fn transfer_owner_is_for_the_owner_alone() {
    let mut ctx = UpdateAgent { agent: agent(), owner: key(2) };
    let before = ctx;
    assert_eq!(transfer_owner(&mut ctx, key(2)), Err(PlatformError::Unauthorized));
    assert_eq!(transfer_owner(&mut ctx, Pubkey::default()), Err(PlatformError::Unauthorized));
    assert_eq!(ctx, before);
}

#[test]
fn transfer_owner_to_oneself_changes_nothing() {
    let mut ctx = as_owner(agent());
    let before = ctx;
    assert!(transfer_owner(&mut ctx, key(1)).is_ok());
    assert_eq!(ctx, before);
}

#[test]
fn a_record_with_a_broken_buffer_reads_as_nothing() {
    let mut broken = agent();
    broken.card_uri_len = 97;
    assert_eq!(broken.card_uri_bytes(), None);
    let mut broken = agent();
    broken.card_uri[95] = 1;
    assert_eq!(broken.card_uri_bytes(), None);
    let mut broken = agent();
    broken.memory_ptr[0] = 1;
    assert_eq!(broken.memory_ptr_bytes(), None);
}
