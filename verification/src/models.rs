//! The decoded shape of a replay.
//!
//! All values are plain owned data. Times and other 32-bit floats from the
//! file are carried as their raw little-endian bit patterns (`u32`), so that
//! the parsed value is exactly the four bytes read; consumers reinterpret
//! them as floating point when they need arithmetic.

use vstd::prelude::*;

verus! {

/// A point the player can seek to: the time's raw float bits, the frame
/// number, and the byte position of the frame in the network stream.
#[derive(Debug, Clone, Copy, PartialEq, Eq)]
pub struct KeyFrame {
    pub time_bits: u32,
    pub frame: i32,
    pub position: i32,
}

/// A notable moment (a goal, a save) attached to a frame.
#[derive(Debug, Clone, PartialEq, Eq)]
pub struct TickMark {
    pub description: String,
    pub frame: i32,
}

/// A debug log line recorded by the engine.
#[derive(Debug, Clone, PartialEq, Eq)]
pub struct DebugInfo {
    pub frame: i32,
    pub user: String,
    pub text: String,
}

/// A class name together with its network index.
#[derive(Debug, Clone, PartialEq, Eq)]
pub struct ClassIndex {
    pub class: String,
    pub index: i32,
}

/// One replicated property of a class: the property's object index and the
/// stream id the wire uses for it.
#[derive(Debug, Clone, Copy, PartialEq, Eq)]
pub struct CacheProp {
    pub object_ind: i32,
    pub stream_id: i32,
}

/// One entry of the class-net-cache: a class's object index, the `cache_id`
/// of its parent entry (zero for none), its own `cache_id`, and its
/// replicated properties. Entries reference only predecessors, so document
/// order is significant.
#[derive(Debug, Clone, PartialEq, Eq)]
pub struct ClassNetCache {
    pub object_ind: i32,
    pub parent_id: i32,
    pub cache_id: i32,
    pub properties: Vec<CacheProp>,
}

/// A value in the header's property tree.
#[derive(Debug, PartialEq)]
pub enum HeaderProp {
    Bool(bool),
    /// A byte property: a kind string and, except for the online-platform
    /// kinds that the format writes bare, a value string.
    Byte { kind: String, value: Option<String> },
    /// The raw bits of a 32-bit float.
    Float(u32),
    Int(i32),
    QWord(u64),
    Name(String),
    Str(String),
    /// A list of nested property trees.
    Array(Vec<Vec<(String, HeaderProp)>>),
}

/// The decoded header: framing, version triple, game type, and properties.
#[derive(Debug, PartialEq)]
pub struct Header {
    pub major_version: i32,
    pub minor_version: i32,
    pub net_version: Option<i32>,
    pub game_type: String,
    pub properties: Vec<(String, HeaderProp)>,
}

/// A position or velocity from the network stream: three signed magnitudes
/// of the bit width the stream declared.
#[derive(Debug, Clone, Copy, PartialEq, Eq)]
pub struct Vector3i {
    pub x: i32,
    pub y: i32,
    pub z: i32,
}

/// Optional per-axis rotation bytes, each gated by its own bit.
#[derive(Debug, Clone, Copy, PartialEq, Eq)]
pub struct Rotation {
    pub yaw: Option<i8>,
    pub pitch: Option<i8>,
    pub roll: Option<i8>,
}

/// The initial state of a spawned actor, as much of it as its class records.
#[derive(Debug, Clone, Copy, PartialEq, Eq)]
pub struct Trajectory {
    pub location: Option<Vector3i>,
    pub rotation: Option<Rotation>,
}

/// An actor spawn in a frame.
#[derive(Debug, Clone, Copy, PartialEq, Eq)]
pub struct NewActor {
    pub actor_id: i32,
    pub name_id: Option<i32>,
    pub object_id: i32,
    pub initial_trajectory: Trajectory,
}


/// A platform-scoped account identity from the network stream.
#[derive(Debug, Clone, PartialEq)]
pub enum RemoteId {
    /// A local split-screen slot.
    SplitScreen(u32),
    Steam(u64),
    /// A PlayStation identity: the raw name field, then the online id.
    PlayStation { name_bytes: Vec<u8>, online_id: u64 },
    Xbox(u64),
    QQ(u64),
    /// A Switch identity: the online id, then an opaque trailer.
    Switch { online_id: u64, unknown: Vec<u8> },
    /// A PsyNet identity: the online id and, on old streams, an opaque
    /// trailer.
    PsyNet { online_id: u64, unknown: Vec<u8> },
    Epic(String),
}

/// A player's unique id: the platform discriminator, the platform-scoped
/// remote id, and the local slot.
#[derive(Debug, Clone, PartialEq)]
pub struct UniqueId {
    pub system_id: u8,
    pub remote_id: RemoteId,
    pub local_id: u8,
}

/// Camera preferences, each a raw 32-bit float pattern; the transition
/// speed exists only on newer streams.
#[derive(Debug, Clone, Copy, PartialEq, Eq)]
pub struct CamSettings {
    pub fov_bits: u32,
    pub height_bits: u32,
    pub angle_bits: u32,
    pub distance_bits: u32,
    pub stiffness_bits: u32,
    pub swivel_bits: u32,
    pub transition_bits: Option<u32>,
}

/// A car loadout; the trailing fields exist only from the loadout version
/// that introduced them.
#[derive(Debug, Clone, Copy, PartialEq, Eq)]
pub struct Loadout {
    pub version: u8,
    pub body: u32,
    pub decal: u32,
    pub wheels: u32,
    pub rocket_trail: u32,
    pub antenna: u32,
    pub topper: u32,
    pub unknown1: u32,
    pub unknown2: Option<u32>,
    pub engine_audio: Option<u32>,
    pub trail: Option<u32>,
    pub goal_explosion: Option<u32>,
    pub banner: Option<u32>,
    pub product_id: Option<u32>,
}

/// The value of one product attribute, keyed by the attribute's object
/// name.
#[derive(Debug, Clone, PartialEq)]
pub enum ProductValue {
    NoColor,
    OldColor(u32),
    NewColor(u32),
    OldPaint(u32),
    NewPaint(u32),
    Title(String),
    SpecialEdition(u32),
    TeamEdition(u32),
}

/// One product attribute of an online loadout item.
#[derive(Debug, Clone, PartialEq)]
pub struct ProductAttribute {
    pub unknown: bool,
    pub object_ind: u32,
    pub value: ProductValue,
}

/// An online loadout: per item, its product attributes.
#[derive(Debug, Clone, PartialEq)]
pub struct OnlineLoadout {
    pub products: Vec<Vec<ProductAttribute>>,
}

/// A reservation in a private match lobby.
#[derive(Debug, Clone, PartialEq)]
pub struct Reservation {
    pub number: u32,
    pub unique_id: UniqueId,
    pub name: Option<String>,
    /// The trailing flags: one byte on newer streams, two bits packed into
    /// the low bits on older ones.
    pub flags: u8,
}

/// A decoded attribute value; one variant per payload shape the attribute
/// table references.
#[derive(Debug, Clone, PartialEq)]
pub enum AttributeValue {
    Boolean(bool),
    Byte(u8),
    Int(i32),
    /// The raw bits of a 32-bit float.
    FloatBits(u32),
    Text(String),
    /// An eleven-value enumeration read as a fixed-width field.
    Enumeration(u16),
    /// A presence bit and a 31-bit object reference.
    Flagged(bool, u32),
    QWord(u64),
    Location(Vector3i),
    /// A rigid body: sleeping bit, location, rotation components, and, when
    /// awake, linear and angular velocity.
    RigidBody {
        sleeping: bool,
        location: Vector3i,
        rotation: Vector3i,
        linear_velocity: Option<Vector3i>,
        angular_velocity: Option<Vector3i>,
    },
    /// A demolition: attacker and victim with their velocities.
    Demolish {
        attacker_flag: bool,
        attacker: u32,
        victim_flag: bool,
        victim: u32,
        attacker_velocity: Vector3i,
        victim_velocity: Vector3i,
    },
    /// A pickup: optional instigator and a picked-up bit.
    Pickup {
        instigator: Option<u32>,
        picked_up: bool,
    },
    UniqueId(UniqueId),
    /// A party leader: absent when the discriminator byte is zero.
    PartyLeader(Option<UniqueId>),
    CamSettings(CamSettings),
    Loadout(Loadout),
    LoadoutOnline(OnlineLoadout),
    /// A pair of loadouts, blue then orange.
    TeamLoadout {
        blue: Loadout,
        orange: Loadout,
    },
    /// A pair of online loadouts with two trailing bits.
    LoadoutsOnline {
        blue: OnlineLoadout,
        orange: OnlineLoadout,
        unknown1: bool,
        unknown2: bool,
    },
    Reservation(Reservation),
    ClubColors {
        blue_flag: bool,
        blue_color: u8,
        orange_flag: bool,
        orange_color: u8,
    },
    TeamPaint {
        team: u8,
        primary_color: u8,
        accent_color: u8,
        primary_finish: u32,
        accent_finish: u32,
    },
    MusicStinger {
        flag: bool,
        cue: u32,
        trigger: u8,
    },
    /// A breakout platform's damage: tile state, a damage bit, the
    /// offender, the ball's position, and two trailing bits.
    DamageState {
        tile_state: u8,
        damaged: bool,
        offender: i32,
        ball_position: Vector3i,
        direct_hit: bool,
        unknown: bool,
    },
    /// Damage applied to a breakout ball.
    AppliedDamage {
        id: u8,
        position: Vector3i,
        damage_index: i32,
        total_damage: i32,
    },
    Explosion {
        flag: bool,
        actor: i32,
        location: Vector3i,
    },
    /// An explosion followed by a flagged integer.
    ExtendedExplosion {
        flag: bool,
        actor: i32,
        location: Vector3i,
        unknown_flag: bool,
        unknown_int: i32,
    },
    /// A car welded to another actor: the target, the attachment offset,
    /// the mass as raw float bits, and the relative rotation.
    WeldedInfo {
        active: bool,
        actor: i32,
        offset: Vector3i,
        mass_bits: u32,
        rotation: Rotation,
    },
    PrivateMatchSettings {
        mutators: String,
        joinable_by: u32,
        max_players: u32,
        game_name: String,
        password: String,
        flag: bool,
    },
    GameMode(u8),
}

/// An attribute update on an open actor channel.
#[derive(Debug, Clone, PartialEq)]
pub struct UpdatedAttribute {
    pub actor_id: i32,
    pub stream_id: i32,
    pub object_id: i32,
    pub attribute: AttributeValue,
}

/// One frame of the network stream: the time and delta as raw float bits,
/// and the actor events in wire order.
#[derive(Debug, Clone, PartialEq)]
pub struct NetworkFrame {
    pub time_bits: u32,
    pub delta_bits: u32,
    pub new_actors: Vec<NewActor>,
    pub updated_actors: Vec<UpdatedAttribute>,
    pub deleted_actors: Vec<i32>,
}

/// The decoded network stream.
#[derive(Debug, Clone, PartialEq)]
pub struct NetworkFrames {
    pub frames: Vec<NetworkFrame>,
}

/// A fully decoded replay.
#[derive(Debug, PartialEq)]
pub struct Replay {
    pub header_size: i32,
    pub header_crc: u32,
    pub major_version: i32,
    pub minor_version: i32,
    pub net_version: Option<i32>,
    pub game_type: String,
    pub properties: Vec<(String, HeaderProp)>,
    pub content_size: i32,
    pub content_crc: u32,
    pub network_frames: Option<NetworkFrames>,
    pub levels: Vec<String>,
    pub keyframes: Vec<KeyFrame>,
    pub debug_info: Vec<DebugInfo>,
    pub tick_marks: Vec<TickMark>,
    pub packages: Vec<String>,
    pub objects: Vec<String>,
    pub names: Vec<String>,
    pub class_indices: Vec<ClassIndex>,
    pub net_cache: Vec<ClassNetCache>,
}

} // verus!
