//! The engine's static tables: spawn trajectories, archetype classes,
//! class parents, and the attribute registry.
//!
//! Each table is a total lookup from a fully-qualified name, written once as
//! a spec function and once as executable code proved equal to it. The
//! attribute registry maps each replicated property to the payload shape its
//! decoder consumes.

use vstd::prelude::*;

use crate::text::str_eq;

verus! {

/// What an actor's initial state carries on the wire.
#[derive(Debug, Clone, Copy, PartialEq, Eq)]
pub enum SpawnTrajectory {
    NoTrajectory,
    LocationOnly,
    LocationAndRotation,
}

/// The payload shape of a replicated property.
#[derive(Debug, Clone, Copy, PartialEq, Eq)]
pub enum AttrTag {
    Boolean,
    Byte,
    Int,
    Float,
    Text,
    Enumeration,
    Flagged,
    QWord,
    Location,
    RigidBody,
    Demolish,
    Pickup,
    UniqueId,
    PartyLeader,
    CamSettings,
    Loadout,
    LoadoutOnline,
    TeamLoadout,
    LoadoutsOnline,
    Reservation,
    ClubColors,
    TeamPaint,
    MusicStinger,
    DamageState,
    AppliedDamage,
    Explosion,
    ExtendedExplosion,
    Welded,
    PrivateMatchSettings,
    GameMode,
}

pub open spec fn spec_spawn_trajectory_1(name: Seq<char>) -> SpawnTrajectory {
    if name == "Archetypes.CarComponents.CarComponent_Jump"@ {
        SpawnTrajectory::LocationOnly
    } else if name == "Archetypes.GameEvent.GameEvent_Basketball"@ {
        SpawnTrajectory::LocationOnly
    } else if name == "Archetypes.GameEvent.GameEvent_BasketballPrivate"@ {
        SpawnTrajectory::LocationOnly
    } else if name == "Archetypes.GameEvent.GameEvent_BasketballSplitscreen"@ {
        SpawnTrajectory::LocationOnly
    } else if name == "Archetypes.GameEvent.GameEvent_Breakout"@ {
        SpawnTrajectory::LocationOnly
    } else if name == "Archetypes.GameEvent.GameEvent_Hockey"@ {
        SpawnTrajectory::LocationOnly
    } else if name == "Archetypes.GameEvent.GameEvent_HockeyPrivate"@ {
        SpawnTrajectory::LocationOnly
    } else if name == "Archetypes.GameEvent.GameEvent_HockeySplitscreen"@ {
        SpawnTrajectory::LocationOnly
    } else if name == "Archetypes.GameEvent.GameEvent_Items"@ {
        SpawnTrajectory::LocationOnly
    } else if name == "Archetypes.GameEvent.GameEvent_Season"@ {
        SpawnTrajectory::LocationOnly
    } else if name == "Archetypes.GameEvent.GameEvent_Soccar"@ {
        SpawnTrajectory::LocationOnly
    } else if name == "Archetypes.GameEvent.GameEvent_SoccarPrivate"@ {
        SpawnTrajectory::LocationOnly
    } else if name == "Archetypes.GameEvent.GameEvent_SoccarSplitscreen"@ {
        SpawnTrajectory::LocationOnly
    } else if name == "Archetypes.SpecialPickups.SpecialPickup_BallFreeze"@ {
        SpawnTrajectory::LocationOnly
    } else if name == "Archetypes.SpecialPickups.SpecialPickup_BallGrapplingHook"@ {
        SpawnTrajectory::LocationOnly
    } else if name == "Archetypes.SpecialPickups.SpecialPickup_BallLasso"@ {
        SpawnTrajectory::LocationOnly
    } else if name == "Archetypes.SpecialPickups.SpecialPickup_BallSpring"@ {
        SpawnTrajectory::LocationOnly
    } else if name == "Archetypes.SpecialPickups.SpecialPickup_BallVelcro"@ {
        SpawnTrajectory::LocationOnly
    } else if name == "Archetypes.SpecialPickups.SpecialPickup_Batarang"@ {
        SpawnTrajectory::LocationOnly
    } else if name == "Archetypes.SpecialPickups.SpecialPickup_BoostOverride"@ {
        SpawnTrajectory::LocationOnly
    } else if name == "Archetypes.SpecialPickups.SpecialPickup_CarSpring"@ {
        SpawnTrajectory::LocationOnly
    } else if name == "Archetypes.SpecialPickups.SpecialPickup_GravityWell"@ {
        SpawnTrajectory::LocationOnly
    } else if name == "Archetypes.SpecialPickups.SpecialPickup_StrongHit"@ {
        SpawnTrajectory::LocationOnly
    } else if name == "Archetypes.SpecialPickups.SpecialPickup_Swapper"@ {
        SpawnTrajectory::LocationOnly
    } else if name == "Archetypes.SpecialPickups.SpecialPickup_Tornado"@ {
        SpawnTrajectory::LocationOnly
    } else if name == "Archetypes.Teams.Team0"@ {
        SpawnTrajectory::LocationOnly
    } else if name == "Archetypes.Teams.Team1"@ {
        SpawnTrajectory::LocationOnly
    } else if name == "GameInfo_Basketball.GameInfo.GameInfo_Basketball:GameReplicationInfoArchetype"@ {
        SpawnTrajectory::LocationOnly
    } else if name == "GameInfo_Breakout.GameInfo.GameInfo_Breakout:GameReplicationInfoArchetype"@ {
        SpawnTrajectory::LocationOnly
    } else if name == "Gameinfo_Hockey.GameInfo.Gameinfo_Hockey:GameReplicationInfoArchetype"@ {
        SpawnTrajectory::LocationOnly
    } else if name == "GameInfo_Items.GameInfo.GameInfo_Items:GameReplicationInfoArchetype"@ {
        SpawnTrajectory::LocationOnly
    } else if name == "GameInfo_Season.GameInfo.GameInfo_Season:GameReplicationInfoArchetype"@ {
        SpawnTrajectory::LocationOnly
    } else if name == "GameInfo_Soccar.GameInfo.GameInfo_Soccar:GameReplicationInfoArchetype"@ {
        SpawnTrajectory::LocationOnly
    } else if name == "TAGame.Default__CameraSettingsActor_TA"@ {
        SpawnTrajectory::LocationOnly
    } else if name == "TAGame.Default__PRI_TA"@ {
        SpawnTrajectory::LocationOnly
    } else if name == "TheWorld:PersistentLevel.BreakOutActor_Platform_TA"@ {
        SpawnTrajectory::LocationOnly
    } else if name == "TheWorld:PersistentLevel.CrowdActor_TA"@ {
        SpawnTrajectory::LocationOnly
    } else if name == "TheWorld:PersistentLevel.CrowdManager_TA"@ {
        SpawnTrajectory::LocationOnly
    } else if name == "TheWorld:PersistentLevel.InMapScoreboard_TA"@ {
        SpawnTrajectory::LocationOnly
    } else if name == "TheWorld:PersistentLevel.VehiclePickup_Boost_TA"@ {
        SpawnTrajectory::LocationOnly
    } else {
        SpawnTrajectory::NoTrajectory
    }
}

fn spawn_trajectory_1(name: &str) -> (r: SpawnTrajectory)
    ensures
        r == spec_spawn_trajectory_1(name@),
{
    if str_eq(name, "Archetypes.CarComponents.CarComponent_Jump") {
        SpawnTrajectory::LocationOnly
    } else if str_eq(name, "Archetypes.GameEvent.GameEvent_Basketball") {
        SpawnTrajectory::LocationOnly
    } else if str_eq(name, "Archetypes.GameEvent.GameEvent_BasketballPrivate") {
        SpawnTrajectory::LocationOnly
    } else if str_eq(name, "Archetypes.GameEvent.GameEvent_BasketballSplitscreen") {
        SpawnTrajectory::LocationOnly
    } else if str_eq(name, "Archetypes.GameEvent.GameEvent_Breakout") {
        SpawnTrajectory::LocationOnly
    } else if str_eq(name, "Archetypes.GameEvent.GameEvent_Hockey") {
        SpawnTrajectory::LocationOnly
    } else if str_eq(name, "Archetypes.GameEvent.GameEvent_HockeyPrivate") {
        SpawnTrajectory::LocationOnly
    } else if str_eq(name, "Archetypes.GameEvent.GameEvent_HockeySplitscreen") {
        SpawnTrajectory::LocationOnly
    } else if str_eq(name, "Archetypes.GameEvent.GameEvent_Items") {
        SpawnTrajectory::LocationOnly
    } else if str_eq(name, "Archetypes.GameEvent.GameEvent_Season") {
        SpawnTrajectory::LocationOnly
    } else if str_eq(name, "Archetypes.GameEvent.GameEvent_Soccar") {
        SpawnTrajectory::LocationOnly
    } else if str_eq(name, "Archetypes.GameEvent.GameEvent_SoccarPrivate") {
        SpawnTrajectory::LocationOnly
    } else if str_eq(name, "Archetypes.GameEvent.GameEvent_SoccarSplitscreen") {
        SpawnTrajectory::LocationOnly
    } else if str_eq(name, "Archetypes.SpecialPickups.SpecialPickup_BallFreeze") {
        SpawnTrajectory::LocationOnly
    } else if str_eq(name, "Archetypes.SpecialPickups.SpecialPickup_BallGrapplingHook") {
        SpawnTrajectory::LocationOnly
    } else if str_eq(name, "Archetypes.SpecialPickups.SpecialPickup_BallLasso") {
        SpawnTrajectory::LocationOnly
    } else if str_eq(name, "Archetypes.SpecialPickups.SpecialPickup_BallSpring") {
        SpawnTrajectory::LocationOnly
    } else if str_eq(name, "Archetypes.SpecialPickups.SpecialPickup_BallVelcro") {
        SpawnTrajectory::LocationOnly
    } else if str_eq(name, "Archetypes.SpecialPickups.SpecialPickup_Batarang") {
        SpawnTrajectory::LocationOnly
    } else if str_eq(name, "Archetypes.SpecialPickups.SpecialPickup_BoostOverride") {
        SpawnTrajectory::LocationOnly
    } else if str_eq(name, "Archetypes.SpecialPickups.SpecialPickup_CarSpring") {
        SpawnTrajectory::LocationOnly
    } else if str_eq(name, "Archetypes.SpecialPickups.SpecialPickup_GravityWell") {
        SpawnTrajectory::LocationOnly
    } else if str_eq(name, "Archetypes.SpecialPickups.SpecialPickup_StrongHit") {
        SpawnTrajectory::LocationOnly
    } else if str_eq(name, "Archetypes.SpecialPickups.SpecialPickup_Swapper") {
        SpawnTrajectory::LocationOnly
    } else if str_eq(name, "Archetypes.SpecialPickups.SpecialPickup_Tornado") {
        SpawnTrajectory::LocationOnly
    } else if str_eq(name, "Archetypes.Teams.Team0") {
        SpawnTrajectory::LocationOnly
    } else if str_eq(name, "Archetypes.Teams.Team1") {
        SpawnTrajectory::LocationOnly
    } else if str_eq(name, "GameInfo_Basketball.GameInfo.GameInfo_Basketball:GameReplicationInfoArchetype") {
        SpawnTrajectory::LocationOnly
    } else if str_eq(name, "GameInfo_Breakout.GameInfo.GameInfo_Breakout:GameReplicationInfoArchetype") {
        SpawnTrajectory::LocationOnly
    } else if str_eq(name, "Gameinfo_Hockey.GameInfo.Gameinfo_Hockey:GameReplicationInfoArchetype") {
        SpawnTrajectory::LocationOnly
    } else if str_eq(name, "GameInfo_Items.GameInfo.GameInfo_Items:GameReplicationInfoArchetype") {
        SpawnTrajectory::LocationOnly
    } else if str_eq(name, "GameInfo_Season.GameInfo.GameInfo_Season:GameReplicationInfoArchetype") {
        SpawnTrajectory::LocationOnly
    } else if str_eq(name, "GameInfo_Soccar.GameInfo.GameInfo_Soccar:GameReplicationInfoArchetype") {
        SpawnTrajectory::LocationOnly
    } else if str_eq(name, "TAGame.Default__CameraSettingsActor_TA") {
        SpawnTrajectory::LocationOnly
    } else if str_eq(name, "TAGame.Default__PRI_TA") {
        SpawnTrajectory::LocationOnly
    } else if str_eq(name, "TheWorld:PersistentLevel.BreakOutActor_Platform_TA") {
        SpawnTrajectory::LocationOnly
    } else if str_eq(name, "TheWorld:PersistentLevel.CrowdActor_TA") {
        SpawnTrajectory::LocationOnly
    } else if str_eq(name, "TheWorld:PersistentLevel.CrowdManager_TA") {
        SpawnTrajectory::LocationOnly
    } else if str_eq(name, "TheWorld:PersistentLevel.InMapScoreboard_TA") {
        SpawnTrajectory::LocationOnly
    } else if str_eq(name, "TheWorld:PersistentLevel.VehiclePickup_Boost_TA") {
        SpawnTrajectory::LocationOnly
    } else {
        SpawnTrajectory::NoTrajectory
    }
}

/// The spawn trajectory of an object name; objects the table does not
/// list spawn with no trajectory.
pub open spec fn spec_spawn_trajectory(name: Seq<char>) -> SpawnTrajectory {
    if name == "TAGame.Ball_Breakout_TA"@ {
        SpawnTrajectory::LocationAndRotation
    } else if name == "Archetypes.Ball.Ball_Breakout"@ {
        SpawnTrajectory::LocationAndRotation
    } else if name == "TAGame.Ball_TA"@ {
        SpawnTrajectory::LocationAndRotation
    } else if name == "Archetypes.Ball.Ball_BasketBall_Mutator"@ {
        SpawnTrajectory::LocationAndRotation
    } else if name == "Archetypes.Ball.Ball_BasketBall"@ {
        SpawnTrajectory::LocationAndRotation
    } else if name == "Archetypes.Ball.Ball_Default"@ {
        SpawnTrajectory::LocationAndRotation
    } else if name == "Archetypes.Ball.Ball_Puck"@ {
        SpawnTrajectory::LocationAndRotation
    } else if name == "Archetypes.Ball.CubeBall"@ {
        SpawnTrajectory::LocationAndRotation
    } else if name == "TAGame.Car_Season_TA"@ {
        SpawnTrajectory::LocationAndRotation
    } else if name == "TAGame.Car_TA"@ {
        SpawnTrajectory::LocationAndRotation
    } else if name == "Archetypes.Car.Car_Default"@ {
        SpawnTrajectory::LocationAndRotation
    } else if name == "Archetypes.GameEvent.GameEvent_Season:CarArchetype"@ {
        SpawnTrajectory::LocationAndRotation
    } else if name == "TAGame.CameraSettingsActor_TA"@ {
        SpawnTrajectory::LocationOnly
    } else if name == "TAGame.CarComponent_Boost_TA"@ {
        SpawnTrajectory::LocationOnly
    } else if name == "TAGame.CarComponent_Dodge_TA"@ {
        SpawnTrajectory::LocationOnly
    } else if name == "TAGame.CarComponent_DoubleJump_TA"@ {
        SpawnTrajectory::LocationOnly
    } else if name == "TAGame.CarComponent_FlipCar_TA"@ {
        SpawnTrajectory::LocationOnly
    } else if name == "TAGame.CarComponent_Jump_TA"@ {
        SpawnTrajectory::LocationOnly
    } else if name == "TAGame.GameEvent_Season_TA"@ {
        SpawnTrajectory::LocationOnly
    } else if name == "TAGame.GameEvent_Soccar_TA"@ {
        SpawnTrajectory::LocationOnly
    } else if name == "TAGame.GameEvent_SoccarPrivate_TA"@ {
        SpawnTrajectory::LocationOnly
    } else if name == "TAGame.GameEvent_SoccarSplitscreen_TA"@ {
        SpawnTrajectory::LocationOnly
    } else if name == "TAGame.GRI_TA"@ {
        SpawnTrajectory::LocationOnly
    } else if name == "TAGame.PRI_TA"@ {
        SpawnTrajectory::LocationOnly
    } else if name == "TAGame.SpecialPickup_BallCarSpring_TA"@ {
        SpawnTrajectory::LocationOnly
    } else if name == "TAGame.SpecialPickup_BallFreeze_TA"@ {
        SpawnTrajectory::LocationOnly
    } else if name == "TAGame.SpecialPickup_BallGravity_TA"@ {
        SpawnTrajectory::LocationOnly
    } else if name == "TAGame.SpecialPickup_BallLasso_TA"@ {
        SpawnTrajectory::LocationOnly
    } else if name == "TAGame.SpecialPickup_BallVelcro_TA"@ {
        SpawnTrajectory::LocationOnly
    } else if name == "TAGame.SpecialPickup_Batarang_TA"@ {
        SpawnTrajectory::LocationOnly
    } else if name == "TAGame.SpecialPickup_BoostOverride_TA"@ {
        SpawnTrajectory::LocationOnly
    } else if name == "TAGame.SpecialPickup_GrapplingHook_TA"@ {
        SpawnTrajectory::LocationOnly
    } else if name == "TAGame.SpecialPickup_HitForce_TA"@ {
        SpawnTrajectory::LocationOnly
    } else if name == "TAGame.SpecialPickup_Swapper_TA"@ {
        SpawnTrajectory::LocationOnly
    } else if name == "TAGame.SpecialPickup_Tornado_TA"@ {
        SpawnTrajectory::LocationOnly
    } else if name == "TAGame.Team_Soccar_TA"@ {
        SpawnTrajectory::LocationOnly
    } else if name == "Archetypes.CarComponents.CarComponent_Boost"@ {
        SpawnTrajectory::LocationOnly
    } else if name == "Archetypes.CarComponents.CarComponent_Dodge"@ {
        SpawnTrajectory::LocationOnly
    } else if name == "Archetypes.CarComponents.CarComponent_DoubleJump"@ {
        SpawnTrajectory::LocationOnly
    } else if name == "Archetypes.CarComponents.CarComponent_FlipCar"@ {
        SpawnTrajectory::LocationOnly
    } else {
        spec_spawn_trajectory_1(name)
    }
}

/// Looks up `name`; see the spec function of the same name.
pub fn spawn_trajectory(name: &str) -> (r: SpawnTrajectory)
    ensures
        r == spec_spawn_trajectory(name@),
{
    if str_eq(name, "TAGame.Ball_Breakout_TA") {
        SpawnTrajectory::LocationAndRotation
    } else if str_eq(name, "Archetypes.Ball.Ball_Breakout") {
        SpawnTrajectory::LocationAndRotation
    } else if str_eq(name, "TAGame.Ball_TA") {
        SpawnTrajectory::LocationAndRotation
    } else if str_eq(name, "Archetypes.Ball.Ball_BasketBall_Mutator") {
        SpawnTrajectory::LocationAndRotation
    } else if str_eq(name, "Archetypes.Ball.Ball_BasketBall") {
        SpawnTrajectory::LocationAndRotation
    } else if str_eq(name, "Archetypes.Ball.Ball_Default") {
        SpawnTrajectory::LocationAndRotation
    } else if str_eq(name, "Archetypes.Ball.Ball_Puck") {
        SpawnTrajectory::LocationAndRotation
    } else if str_eq(name, "Archetypes.Ball.CubeBall") {
        SpawnTrajectory::LocationAndRotation
    } else if str_eq(name, "TAGame.Car_Season_TA") {
        SpawnTrajectory::LocationAndRotation
    } else if str_eq(name, "TAGame.Car_TA") {
        SpawnTrajectory::LocationAndRotation
    } else if str_eq(name, "Archetypes.Car.Car_Default") {
        SpawnTrajectory::LocationAndRotation
    } else if str_eq(name, "Archetypes.GameEvent.GameEvent_Season:CarArchetype") {
        SpawnTrajectory::LocationAndRotation
    } else if str_eq(name, "TAGame.CameraSettingsActor_TA") {
        SpawnTrajectory::LocationOnly
    } else if str_eq(name, "TAGame.CarComponent_Boost_TA") {
        SpawnTrajectory::LocationOnly
    } else if str_eq(name, "TAGame.CarComponent_Dodge_TA") {
        SpawnTrajectory::LocationOnly
    } else if str_eq(name, "TAGame.CarComponent_DoubleJump_TA") {
        SpawnTrajectory::LocationOnly
    } else if str_eq(name, "TAGame.CarComponent_FlipCar_TA") {
        SpawnTrajectory::LocationOnly
    } else if str_eq(name, "TAGame.CarComponent_Jump_TA") {
        SpawnTrajectory::LocationOnly
    } else if str_eq(name, "TAGame.GameEvent_Season_TA") {
        SpawnTrajectory::LocationOnly
    } else if str_eq(name, "TAGame.GameEvent_Soccar_TA") {
        SpawnTrajectory::LocationOnly
    } else if str_eq(name, "TAGame.GameEvent_SoccarPrivate_TA") {
        SpawnTrajectory::LocationOnly
    } else if str_eq(name, "TAGame.GameEvent_SoccarSplitscreen_TA") {
        SpawnTrajectory::LocationOnly
    } else if str_eq(name, "TAGame.GRI_TA") {
        SpawnTrajectory::LocationOnly
    } else if str_eq(name, "TAGame.PRI_TA") {
        SpawnTrajectory::LocationOnly
    } else if str_eq(name, "TAGame.SpecialPickup_BallCarSpring_TA") {
        SpawnTrajectory::LocationOnly
    } else if str_eq(name, "TAGame.SpecialPickup_BallFreeze_TA") {
        SpawnTrajectory::LocationOnly
    } else if str_eq(name, "TAGame.SpecialPickup_BallGravity_TA") {
        SpawnTrajectory::LocationOnly
    } else if str_eq(name, "TAGame.SpecialPickup_BallLasso_TA") {
        SpawnTrajectory::LocationOnly
    } else if str_eq(name, "TAGame.SpecialPickup_BallVelcro_TA") {
        SpawnTrajectory::LocationOnly
    } else if str_eq(name, "TAGame.SpecialPickup_Batarang_TA") {
        SpawnTrajectory::LocationOnly
    } else if str_eq(name, "TAGame.SpecialPickup_BoostOverride_TA") {
        SpawnTrajectory::LocationOnly
    } else if str_eq(name, "TAGame.SpecialPickup_GrapplingHook_TA") {
        SpawnTrajectory::LocationOnly
    } else if str_eq(name, "TAGame.SpecialPickup_HitForce_TA") {
        SpawnTrajectory::LocationOnly
    } else if str_eq(name, "TAGame.SpecialPickup_Swapper_TA") {
        SpawnTrajectory::LocationOnly
    } else if str_eq(name, "TAGame.SpecialPickup_Tornado_TA") {
        SpawnTrajectory::LocationOnly
    } else if str_eq(name, "TAGame.Team_Soccar_TA") {
        SpawnTrajectory::LocationOnly
    } else if str_eq(name, "Archetypes.CarComponents.CarComponent_Boost") {
        SpawnTrajectory::LocationOnly
    } else if str_eq(name, "Archetypes.CarComponents.CarComponent_Dodge") {
        SpawnTrajectory::LocationOnly
    } else if str_eq(name, "Archetypes.CarComponents.CarComponent_DoubleJump") {
        SpawnTrajectory::LocationOnly
    } else if str_eq(name, "Archetypes.CarComponents.CarComponent_FlipCar") {
        SpawnTrajectory::LocationOnly
    } else {
        spawn_trajectory_1(name)
    }
}

pub open spec fn spec_attr_tag_3(name: Seq<char>) -> Option<AttrTag> {
    if name == "TAGame.PRI_TA:TimeTillItem"@ {
        Some(AttrTag::Int)
    } else if name == "TAGame.PRI_TA:Title"@ {
        Some(AttrTag::Int)
    } else if name == "TAGame.PRI_TA:TotalXP"@ {
        Some(AttrTag::Int)
    } else if name == "TAGame.RBActor_TA:bFrozen"@ {
        Some(AttrTag::Boolean)
    } else if name == "TAGame.RBActor_TA:bIgnoreSyncing"@ {
        Some(AttrTag::Boolean)
    } else if name == "TAGame.RBActor_TA:bReplayActor"@ {
        Some(AttrTag::Boolean)
    } else if name == "TAGame.RBActor_TA:ReplicatedRBState"@ {
        Some(AttrTag::RigidBody)
    } else if name == "TAGame.RBActor_TA:WeldedInfo"@ {
        Some(AttrTag::Welded)
    } else if name == "TAGame.SpecialPickup_BallFreeze_TA:RepOrigSpeed"@ {
        Some(AttrTag::Float)
    } else if name == "TAGame.SpecialPickup_BallVelcro_TA:AttachTime"@ {
        Some(AttrTag::Float)
    } else if name == "TAGame.SpecialPickup_BallVelcro_TA:bBroken"@ {
        Some(AttrTag::Boolean)
    } else if name == "TAGame.SpecialPickup_BallVelcro_TA:bHit"@ {
        Some(AttrTag::Boolean)
    } else if name == "TAGame.SpecialPickup_BallVelcro_TA:BreakTime"@ {
        Some(AttrTag::Float)
    } else if name == "TAGame.SpecialPickup_Targeted_TA:Targeted"@ {
        Some(AttrTag::Flagged)
    } else if name == "TAGame.Team_Soccar_TA:GameScore"@ {
        Some(AttrTag::Int)
    } else if name == "TAGame.Team_TA:ClubColors"@ {
        Some(AttrTag::ClubColors)
    } else if name == "TAGame.Team_TA:CustomTeamName"@ {
        Some(AttrTag::Text)
    } else if name == "TAGame.Team_TA:GameEvent"@ {
        Some(AttrTag::Flagged)
    } else if name == "TAGame.Team_TA:LogoData"@ {
        Some(AttrTag::Flagged)
    } else if name == "TAGame.Vehicle_TA:bDriving"@ {
        Some(AttrTag::Boolean)
    } else if name == "TAGame.Vehicle_TA:bReplicatedHandbrake"@ {
        Some(AttrTag::Boolean)
    } else if name == "TAGame.Vehicle_TA:ReplicatedSteer"@ {
        Some(AttrTag::Byte)
    } else if name == "TAGame.Vehicle_TA:ReplicatedThrottle"@ {
        Some(AttrTag::Byte)
    } else if name == "TAGame.VehiclePickup_TA:bNoPickup"@ {
        Some(AttrTag::Boolean)
    } else if name == "TAGame.VehiclePickup_TA:ReplicatedPickupData"@ {
        Some(AttrTag::Pickup)
    } else {
        None
    }
}

fn attr_tag_3(name: &str) -> (r: Option<AttrTag>)
    ensures
        r == spec_attr_tag_3(name@),
{
    if str_eq(name, "TAGame.PRI_TA:TimeTillItem") {
        Some(AttrTag::Int)
    } else if str_eq(name, "TAGame.PRI_TA:Title") {
        Some(AttrTag::Int)
    } else if str_eq(name, "TAGame.PRI_TA:TotalXP") {
        Some(AttrTag::Int)
    } else if str_eq(name, "TAGame.RBActor_TA:bFrozen") {
        Some(AttrTag::Boolean)
    } else if str_eq(name, "TAGame.RBActor_TA:bIgnoreSyncing") {
        Some(AttrTag::Boolean)
    } else if str_eq(name, "TAGame.RBActor_TA:bReplayActor") {
        Some(AttrTag::Boolean)
    } else if str_eq(name, "TAGame.RBActor_TA:ReplicatedRBState") {
        Some(AttrTag::RigidBody)
    } else if str_eq(name, "TAGame.RBActor_TA:WeldedInfo") {
        Some(AttrTag::Welded)
    } else if str_eq(name, "TAGame.SpecialPickup_BallFreeze_TA:RepOrigSpeed") {
        Some(AttrTag::Float)
    } else if str_eq(name, "TAGame.SpecialPickup_BallVelcro_TA:AttachTime") {
        Some(AttrTag::Float)
    } else if str_eq(name, "TAGame.SpecialPickup_BallVelcro_TA:bBroken") {
        Some(AttrTag::Boolean)
    } else if str_eq(name, "TAGame.SpecialPickup_BallVelcro_TA:bHit") {
        Some(AttrTag::Boolean)
    } else if str_eq(name, "TAGame.SpecialPickup_BallVelcro_TA:BreakTime") {
        Some(AttrTag::Float)
    } else if str_eq(name, "TAGame.SpecialPickup_Targeted_TA:Targeted") {
        Some(AttrTag::Flagged)
    } else if str_eq(name, "TAGame.Team_Soccar_TA:GameScore") {
        Some(AttrTag::Int)
    } else if str_eq(name, "TAGame.Team_TA:ClubColors") {
        Some(AttrTag::ClubColors)
    } else if str_eq(name, "TAGame.Team_TA:CustomTeamName") {
        Some(AttrTag::Text)
    } else if str_eq(name, "TAGame.Team_TA:GameEvent") {
        Some(AttrTag::Flagged)
    } else if str_eq(name, "TAGame.Team_TA:LogoData") {
        Some(AttrTag::Flagged)
    } else if str_eq(name, "TAGame.Vehicle_TA:bDriving") {
        Some(AttrTag::Boolean)
    } else if str_eq(name, "TAGame.Vehicle_TA:bReplicatedHandbrake") {
        Some(AttrTag::Boolean)
    } else if str_eq(name, "TAGame.Vehicle_TA:ReplicatedSteer") {
        Some(AttrTag::Byte)
    } else if str_eq(name, "TAGame.Vehicle_TA:ReplicatedThrottle") {
        Some(AttrTag::Byte)
    } else if str_eq(name, "TAGame.VehiclePickup_TA:bNoPickup") {
        Some(AttrTag::Boolean)
    } else if str_eq(name, "TAGame.VehiclePickup_TA:ReplicatedPickupData") {
        Some(AttrTag::Pickup)
    } else {
        None
    }
}

pub open spec fn spec_attr_tag_2(name: Seq<char>) -> Option<AttrTag> {
    if name == "TAGame.GameEvent_TA:bCanVoteToForfeit"@ {
        Some(AttrTag::Boolean)
    } else if name == "TAGame.GameEvent_TA:bHasLeaveMatchPenalty"@ {
        Some(AttrTag::Boolean)
    } else if name == "TAGame.GameEvent_TA:BotSkill"@ {
        Some(AttrTag::Int)
    } else if name == "TAGame.GameEvent_TA:GameMode"@ {
        Some(AttrTag::GameMode)
    } else if name == "TAGame.GameEvent_TA:MatchTypeClass"@ {
        Some(AttrTag::Flagged)
    } else if name == "TAGame.GameEvent_TA:ReplicatedGameStateTimeRemaining"@ {
        Some(AttrTag::Int)
    } else if name == "TAGame.GameEvent_TA:ReplicatedStateIndex"@ {
        Some(AttrTag::Byte)
    } else if name == "TAGame.GameEvent_TA:ReplicatedStateName"@ {
        Some(AttrTag::Int)
    } else if name == "TAGame.GameEvent_Team_TA:bForfeit"@ {
        Some(AttrTag::Boolean)
    } else if name == "TAGame.GameEvent_Team_TA:MaxTeamSize"@ {
        Some(AttrTag::Int)
    } else if name == "TAGame.GRI_TA:NewDedicatedServerIP"@ {
        Some(AttrTag::Text)
    } else if name == "TAGame.PRI_TA:bIsInSplitScreen"@ {
        Some(AttrTag::Boolean)
    } else if name == "TAGame.PRI_TA:bMatchMVP"@ {
        Some(AttrTag::Boolean)
    } else if name == "TAGame.PRI_TA:bOnlineLoadoutSet"@ {
        Some(AttrTag::Boolean)
    } else if name == "TAGame.PRI_TA:bOnlineLoadoutsSet"@ {
        Some(AttrTag::Boolean)
    } else if name == "TAGame.PRI_TA:BotProductName"@ {
        Some(AttrTag::Int)
    } else if name == "TAGame.PRI_TA:bReady"@ {
        Some(AttrTag::Boolean)
    } else if name == "TAGame.PRI_TA:bUsingBehindView"@ {
        Some(AttrTag::Boolean)
    } else if name == "TAGame.PRI_TA:bUsingItems"@ {
        Some(AttrTag::Boolean)
    } else if name == "TAGame.PRI_TA:bUsingSecondaryCamera"@ {
        Some(AttrTag::Boolean)
    } else if name == "TAGame.PRI_TA:CameraPitch"@ {
        Some(AttrTag::Byte)
    } else if name == "TAGame.PRI_TA:CameraSettings"@ {
        Some(AttrTag::CamSettings)
    } else if name == "TAGame.PRI_TA:CameraYaw"@ {
        Some(AttrTag::Byte)
    } else if name == "TAGame.PRI_TA:ClientLoadout"@ {
        Some(AttrTag::Loadout)
    } else if name == "TAGame.PRI_TA:ClientLoadoutOnline"@ {
        Some(AttrTag::LoadoutOnline)
    } else if name == "TAGame.PRI_TA:ClientLoadouts"@ {
        Some(AttrTag::TeamLoadout)
    } else if name == "TAGame.PRI_TA:ClientLoadoutsOnline"@ {
        Some(AttrTag::LoadoutsOnline)
    } else if name == "TAGame.PRI_TA:MatchAssists"@ {
        Some(AttrTag::Int)
    } else if name == "TAGame.PRI_TA:MatchBreakoutDamage"@ {
        Some(AttrTag::Int)
    } else if name == "TAGame.PRI_TA:MatchGoals"@ {
        Some(AttrTag::Int)
    } else if name == "TAGame.PRI_TA:MatchSaves"@ {
        Some(AttrTag::Int)
    } else if name == "TAGame.PRI_TA:MatchScore"@ {
        Some(AttrTag::Int)
    } else if name == "TAGame.PRI_TA:MatchShots"@ {
        Some(AttrTag::Int)
    } else if name == "TAGame.PRI_TA:MaxTimeTillItem"@ {
        Some(AttrTag::Int)
    } else if name == "TAGame.PRI_TA:PartyLeader"@ {
        Some(AttrTag::PartyLeader)
    } else if name == "TAGame.PRI_TA:PawnType"@ {
        Some(AttrTag::Byte)
    } else if name == "TAGame.PRI_TA:PersistentCamera"@ {
        Some(AttrTag::Flagged)
    } else if name == "TAGame.PRI_TA:PlayerHistoryValid"@ {
        Some(AttrTag::Boolean)
    } else if name == "TAGame.PRI_TA:ReplicatedGameEvent"@ {
        Some(AttrTag::Flagged)
    } else if name == "TAGame.PRI_TA:SteeringSensitivity"@ {
        Some(AttrTag::Float)
    } else {
        spec_attr_tag_3(name)
    }
}

fn attr_tag_2(name: &str) -> (r: Option<AttrTag>)
    ensures
        r == spec_attr_tag_2(name@),
{
    if str_eq(name, "TAGame.GameEvent_TA:bCanVoteToForfeit") {
        Some(AttrTag::Boolean)
    } else if str_eq(name, "TAGame.GameEvent_TA:bHasLeaveMatchPenalty") {
        Some(AttrTag::Boolean)
    } else if str_eq(name, "TAGame.GameEvent_TA:BotSkill") {
        Some(AttrTag::Int)
    } else if str_eq(name, "TAGame.GameEvent_TA:GameMode") {
        Some(AttrTag::GameMode)
    } else if str_eq(name, "TAGame.GameEvent_TA:MatchTypeClass") {
        Some(AttrTag::Flagged)
    } else if str_eq(name, "TAGame.GameEvent_TA:ReplicatedGameStateTimeRemaining") {
        Some(AttrTag::Int)
    } else if str_eq(name, "TAGame.GameEvent_TA:ReplicatedStateIndex") {
        Some(AttrTag::Byte)
    } else if str_eq(name, "TAGame.GameEvent_TA:ReplicatedStateName") {
        Some(AttrTag::Int)
    } else if str_eq(name, "TAGame.GameEvent_Team_TA:bForfeit") {
        Some(AttrTag::Boolean)
    } else if str_eq(name, "TAGame.GameEvent_Team_TA:MaxTeamSize") {
        Some(AttrTag::Int)
    } else if str_eq(name, "TAGame.GRI_TA:NewDedicatedServerIP") {
        Some(AttrTag::Text)
    } else if str_eq(name, "TAGame.PRI_TA:bIsInSplitScreen") {
        Some(AttrTag::Boolean)
    } else if str_eq(name, "TAGame.PRI_TA:bMatchMVP") {
        Some(AttrTag::Boolean)
    } else if str_eq(name, "TAGame.PRI_TA:bOnlineLoadoutSet") {
        Some(AttrTag::Boolean)
    } else if str_eq(name, "TAGame.PRI_TA:bOnlineLoadoutsSet") {
        Some(AttrTag::Boolean)
    } else if str_eq(name, "TAGame.PRI_TA:BotProductName") {
        Some(AttrTag::Int)
    } else if str_eq(name, "TAGame.PRI_TA:bReady") {
        Some(AttrTag::Boolean)
    } else if str_eq(name, "TAGame.PRI_TA:bUsingBehindView") {
        Some(AttrTag::Boolean)
    } else if str_eq(name, "TAGame.PRI_TA:bUsingItems") {
        Some(AttrTag::Boolean)
    } else if str_eq(name, "TAGame.PRI_TA:bUsingSecondaryCamera") {
        Some(AttrTag::Boolean)
    } else if str_eq(name, "TAGame.PRI_TA:CameraPitch") {
        Some(AttrTag::Byte)
    } else if str_eq(name, "TAGame.PRI_TA:CameraSettings") {
        Some(AttrTag::CamSettings)
    } else if str_eq(name, "TAGame.PRI_TA:CameraYaw") {
        Some(AttrTag::Byte)
    } else if str_eq(name, "TAGame.PRI_TA:ClientLoadout") {
        Some(AttrTag::Loadout)
    } else if str_eq(name, "TAGame.PRI_TA:ClientLoadoutOnline") {
        Some(AttrTag::LoadoutOnline)
    } else if str_eq(name, "TAGame.PRI_TA:ClientLoadouts") {
        Some(AttrTag::TeamLoadout)
    } else if str_eq(name, "TAGame.PRI_TA:ClientLoadoutsOnline") {
        Some(AttrTag::LoadoutsOnline)
    } else if str_eq(name, "TAGame.PRI_TA:MatchAssists") {
        Some(AttrTag::Int)
    } else if str_eq(name, "TAGame.PRI_TA:MatchBreakoutDamage") {
        Some(AttrTag::Int)
    } else if str_eq(name, "TAGame.PRI_TA:MatchGoals") {
        Some(AttrTag::Int)
    } else if str_eq(name, "TAGame.PRI_TA:MatchSaves") {
        Some(AttrTag::Int)
    } else if str_eq(name, "TAGame.PRI_TA:MatchScore") {
        Some(AttrTag::Int)
    } else if str_eq(name, "TAGame.PRI_TA:MatchShots") {
        Some(AttrTag::Int)
    } else if str_eq(name, "TAGame.PRI_TA:MaxTimeTillItem") {
        Some(AttrTag::Int)
    } else if str_eq(name, "TAGame.PRI_TA:PartyLeader") {
        Some(AttrTag::PartyLeader)
    } else if str_eq(name, "TAGame.PRI_TA:PawnType") {
        Some(AttrTag::Byte)
    } else if str_eq(name, "TAGame.PRI_TA:PersistentCamera") {
        Some(AttrTag::Flagged)
    } else if str_eq(name, "TAGame.PRI_TA:PlayerHistoryValid") {
        Some(AttrTag::Boolean)
    } else if str_eq(name, "TAGame.PRI_TA:ReplicatedGameEvent") {
        Some(AttrTag::Flagged)
    } else if str_eq(name, "TAGame.PRI_TA:SteeringSensitivity") {
        Some(AttrTag::Float)
    } else {
        attr_tag_3(name)
    }
}

pub open spec fn spec_attr_tag_1(name: Seq<char>) -> Option<AttrTag> {
    if name == "TAGame.CameraSettingsActor_TA:bUsingSecondaryCamera"@ {
        Some(AttrTag::Boolean)
    } else if name == "TAGame.CameraSettingsActor_TA:CameraPitch"@ {
        Some(AttrTag::Byte)
    } else if name == "TAGame.CameraSettingsActor_TA:CameraYaw"@ {
        Some(AttrTag::Byte)
    } else if name == "TAGame.CameraSettingsActor_TA:PRI"@ {
        Some(AttrTag::Flagged)
    } else if name == "TAGame.CameraSettingsActor_TA:ProfileSettings"@ {
        Some(AttrTag::CamSettings)
    } else if name == "TAGame.Car_TA:AddedBallForceMultiplier"@ {
        Some(AttrTag::Float)
    } else if name == "TAGame.Car_TA:AddedCarForceMultiplier"@ {
        Some(AttrTag::Float)
    } else if name == "TAGame.Car_TA:AttachedPickup"@ {
        Some(AttrTag::Flagged)
    } else if name == "TAGame.Car_TA:ClubColors"@ {
        Some(AttrTag::ClubColors)
    } else if name == "TAGame.Car_TA:ReplicatedDemolish"@ {
        Some(AttrTag::Demolish)
    } else if name == "TAGame.Car_TA:TeamPaint"@ {
        Some(AttrTag::TeamPaint)
    } else if name == "TAGame.CarComponent_Boost_TA:bNoBoost"@ {
        Some(AttrTag::Boolean)
    } else if name == "TAGame.CarComponent_Boost_TA:BoostModifier"@ {
        Some(AttrTag::Float)
    } else if name == "TAGame.CarComponent_Boost_TA:bUnlimitedBoost"@ {
        Some(AttrTag::Boolean)
    } else if name == "TAGame.CarComponent_Boost_TA:RechargeDelay"@ {
        Some(AttrTag::Float)
    } else if name == "TAGame.CarComponent_Boost_TA:RechargeRate"@ {
        Some(AttrTag::Float)
    } else if name == "TAGame.CarComponent_Boost_TA:ReplicatedBoostAmount"@ {
        Some(AttrTag::Byte)
    } else if name == "TAGame.CarComponent_Boost_TA:UnlimitedBoostRefCount"@ {
        Some(AttrTag::Int)
    } else if name == "TAGame.CarComponent_Dodge_TA:DodgeTorque"@ {
        Some(AttrTag::Location)
    } else if name == "TAGame.CarComponent_FlipCar_TA:bFlipRight"@ {
        Some(AttrTag::Boolean)
    } else if name == "TAGame.CarComponent_FlipCar_TA:FlipCarTime"@ {
        Some(AttrTag::Float)
    } else if name == "TAGame.CarComponent_TA:ReplicatedActive"@ {
        Some(AttrTag::Byte)
    } else if name == "TAGame.CarComponent_TA:ReplicatedActivityTime"@ {
        Some(AttrTag::Float)
    } else if name == "TAGame.CarComponent_TA:Vehicle"@ {
        Some(AttrTag::Flagged)
    } else if name == "TAGame.CrowdActor_TA:GameEvent"@ {
        Some(AttrTag::Flagged)
    } else if name == "TAGame.CrowdActor_TA:ModifiedNoise"@ {
        Some(AttrTag::Float)
    } else if name == "TAGame.CrowdActor_TA:ReplicatedCountDownNumber"@ {
        Some(AttrTag::Int)
    } else if name == "TAGame.CrowdActor_TA:ReplicatedOneShotSound"@ {
        Some(AttrTag::Flagged)
    } else if name == "TAGame.CrowdActor_TA:ReplicatedRoundCountDownNumber"@ {
        Some(AttrTag::Int)
    } else if name == "TAGame.CrowdManager_TA:GameEvent"@ {
        Some(AttrTag::Flagged)
    } else if name == "TAGame.CrowdManager_TA:ReplicatedGlobalOneShotSound"@ {
        Some(AttrTag::Int)
    } else if name == "TAGame.GameEvent_Soccar_TA:bBallHasBeenHit"@ {
        Some(AttrTag::Boolean)
    } else if name == "TAGame.GameEvent_Soccar_TA:bOverTime"@ {
        Some(AttrTag::Boolean)
    } else if name == "TAGame.GameEvent_Soccar_TA:GameTime"@ {
        Some(AttrTag::Int)
    } else if name == "TAGame.GameEvent_Soccar_TA:ReplicatedMusicStinger"@ {
        Some(AttrTag::MusicStinger)
    } else if name == "TAGame.GameEvent_Soccar_TA:ReplicatedScoredOnTeam"@ {
        Some(AttrTag::Byte)
    } else if name == "TAGame.GameEvent_Soccar_TA:RoundNum"@ {
        Some(AttrTag::Int)
    } else if name == "TAGame.GameEvent_Soccar_TA:SecondsRemaining"@ {
        Some(AttrTag::Int)
    } else if name == "TAGame.GameEvent_Soccar_TA:SubRulesArchetype"@ {
        Some(AttrTag::Flagged)
    } else if name == "TAGame.GameEvent_SoccarPrivate_TA:MatchSettings"@ {
        Some(AttrTag::PrivateMatchSettings)
    } else {
        spec_attr_tag_2(name)
    }
}

fn attr_tag_1(name: &str) -> (r: Option<AttrTag>)
    ensures
        r == spec_attr_tag_1(name@),
{
    if str_eq(name, "TAGame.CameraSettingsActor_TA:bUsingSecondaryCamera") {
        Some(AttrTag::Boolean)
    } else if str_eq(name, "TAGame.CameraSettingsActor_TA:CameraPitch") {
        Some(AttrTag::Byte)
    } else if str_eq(name, "TAGame.CameraSettingsActor_TA:CameraYaw") {
        Some(AttrTag::Byte)
    } else if str_eq(name, "TAGame.CameraSettingsActor_TA:PRI") {
        Some(AttrTag::Flagged)
    } else if str_eq(name, "TAGame.CameraSettingsActor_TA:ProfileSettings") {
        Some(AttrTag::CamSettings)
    } else if str_eq(name, "TAGame.Car_TA:AddedBallForceMultiplier") {
        Some(AttrTag::Float)
    } else if str_eq(name, "TAGame.Car_TA:AddedCarForceMultiplier") {
        Some(AttrTag::Float)
    } else if str_eq(name, "TAGame.Car_TA:AttachedPickup") {
        Some(AttrTag::Flagged)
    } else if str_eq(name, "TAGame.Car_TA:ClubColors") {
        Some(AttrTag::ClubColors)
    } else if str_eq(name, "TAGame.Car_TA:ReplicatedDemolish") {
        Some(AttrTag::Demolish)
    } else if str_eq(name, "TAGame.Car_TA:TeamPaint") {
        Some(AttrTag::TeamPaint)
    } else if str_eq(name, "TAGame.CarComponent_Boost_TA:bNoBoost") {
        Some(AttrTag::Boolean)
    } else if str_eq(name, "TAGame.CarComponent_Boost_TA:BoostModifier") {
        Some(AttrTag::Float)
    } else if str_eq(name, "TAGame.CarComponent_Boost_TA:bUnlimitedBoost") {
        Some(AttrTag::Boolean)
    } else if str_eq(name, "TAGame.CarComponent_Boost_TA:RechargeDelay") {
        Some(AttrTag::Float)
    } else if str_eq(name, "TAGame.CarComponent_Boost_TA:RechargeRate") {
        Some(AttrTag::Float)
    } else if str_eq(name, "TAGame.CarComponent_Boost_TA:ReplicatedBoostAmount") {
        Some(AttrTag::Byte)
    } else if str_eq(name, "TAGame.CarComponent_Boost_TA:UnlimitedBoostRefCount") {
        Some(AttrTag::Int)
    } else if str_eq(name, "TAGame.CarComponent_Dodge_TA:DodgeTorque") {
        Some(AttrTag::Location)
    } else if str_eq(name, "TAGame.CarComponent_FlipCar_TA:bFlipRight") {
        Some(AttrTag::Boolean)
    } else if str_eq(name, "TAGame.CarComponent_FlipCar_TA:FlipCarTime") {
        Some(AttrTag::Float)
    } else if str_eq(name, "TAGame.CarComponent_TA:ReplicatedActive") {
        Some(AttrTag::Byte)
    } else if str_eq(name, "TAGame.CarComponent_TA:ReplicatedActivityTime") {
        Some(AttrTag::Float)
    } else if str_eq(name, "TAGame.CarComponent_TA:Vehicle") {
        Some(AttrTag::Flagged)
    } else if str_eq(name, "TAGame.CrowdActor_TA:GameEvent") {
        Some(AttrTag::Flagged)
    } else if str_eq(name, "TAGame.CrowdActor_TA:ModifiedNoise") {
        Some(AttrTag::Float)
    } else if str_eq(name, "TAGame.CrowdActor_TA:ReplicatedCountDownNumber") {
        Some(AttrTag::Int)
    } else if str_eq(name, "TAGame.CrowdActor_TA:ReplicatedOneShotSound") {
        Some(AttrTag::Flagged)
    } else if str_eq(name, "TAGame.CrowdActor_TA:ReplicatedRoundCountDownNumber") {
        Some(AttrTag::Int)
    } else if str_eq(name, "TAGame.CrowdManager_TA:GameEvent") {
        Some(AttrTag::Flagged)
    } else if str_eq(name, "TAGame.CrowdManager_TA:ReplicatedGlobalOneShotSound") {
        Some(AttrTag::Int)
    } else if str_eq(name, "TAGame.GameEvent_Soccar_TA:bBallHasBeenHit") {
        Some(AttrTag::Boolean)
    } else if str_eq(name, "TAGame.GameEvent_Soccar_TA:bOverTime") {
        Some(AttrTag::Boolean)
    } else if str_eq(name, "TAGame.GameEvent_Soccar_TA:GameTime") {
        Some(AttrTag::Int)
    } else if str_eq(name, "TAGame.GameEvent_Soccar_TA:ReplicatedMusicStinger") {
        Some(AttrTag::MusicStinger)
    } else if str_eq(name, "TAGame.GameEvent_Soccar_TA:ReplicatedScoredOnTeam") {
        Some(AttrTag::Byte)
    } else if str_eq(name, "TAGame.GameEvent_Soccar_TA:RoundNum") {
        Some(AttrTag::Int)
    } else if str_eq(name, "TAGame.GameEvent_Soccar_TA:SecondsRemaining") {
        Some(AttrTag::Int)
    } else if str_eq(name, "TAGame.GameEvent_Soccar_TA:SubRulesArchetype") {
        Some(AttrTag::Flagged)
    } else if str_eq(name, "TAGame.GameEvent_SoccarPrivate_TA:MatchSettings") {
        Some(AttrTag::PrivateMatchSettings)
    } else {
        attr_tag_2(name)
    }
}

/// The payload shape of a fully-qualified property name, or `None` for a
/// name the registry does not list.
pub open spec fn spec_attr_tag(name: Seq<char>) -> Option<AttrTag> {
    if name == "Engine.Actor:bBlockActors"@ {
        Some(AttrTag::Boolean)
    } else if name == "Engine.Actor:bCollideActors"@ {
        Some(AttrTag::Boolean)
    } else if name == "Engine.Actor:bHidden"@ {
        Some(AttrTag::Boolean)
    } else if name == "Engine.Actor:DrawScale"@ {
        Some(AttrTag::Float)
    } else if name == "Engine.Actor:Role"@ {
        Some(AttrTag::Enumeration)
    } else if name == "Engine.GameReplicationInfo:bMatchIsOver"@ {
        Some(AttrTag::Boolean)
    } else if name == "Engine.GameReplicationInfo:GameClass"@ {
        Some(AttrTag::Flagged)
    } else if name == "Engine.GameReplicationInfo:ServerName"@ {
        Some(AttrTag::Text)
    } else if name == "Engine.Pawn:PlayerReplicationInfo"@ {
        Some(AttrTag::Flagged)
    } else if name == "Engine.PlayerReplicationInfo:bBot"@ {
        Some(AttrTag::Boolean)
    } else if name == "Engine.PlayerReplicationInfo:bIsSpectator"@ {
        Some(AttrTag::Boolean)
    } else if name == "Engine.PlayerReplicationInfo:bReadyToPlay"@ {
        Some(AttrTag::Boolean)
    } else if name == "Engine.PlayerReplicationInfo:bWaitingPlayer"@ {
        Some(AttrTag::Boolean)
    } else if name == "Engine.PlayerReplicationInfo:Ping"@ {
        Some(AttrTag::Byte)
    } else if name == "Engine.PlayerReplicationInfo:PlayerID"@ {
        Some(AttrTag::Int)
    } else if name == "Engine.PlayerReplicationInfo:PlayerName"@ {
        Some(AttrTag::Text)
    } else if name == "Engine.PlayerReplicationInfo:RemoteUserData"@ {
        Some(AttrTag::Text)
    } else if name == "Engine.PlayerReplicationInfo:Score"@ {
        Some(AttrTag::Int)
    } else if name == "Engine.PlayerReplicationInfo:Team"@ {
        Some(AttrTag::Flagged)
    } else if name == "Engine.PlayerReplicationInfo:UniqueId"@ {
        Some(AttrTag::UniqueId)
    } else if name == "Engine.TeamInfo:Score"@ {
        Some(AttrTag::Int)
    } else if name == "ProjectX.GRI_X:bGameStarted"@ {
        Some(AttrTag::Boolean)
    } else if name == "ProjectX.GRI_X:GameServerID"@ {
        Some(AttrTag::QWord)
    } else if name == "ProjectX.GRI_X:MatchGUID"@ {
        Some(AttrTag::Text)
    } else if name == "ProjectX.GRI_X:ReplicatedGameMutatorIndex"@ {
        Some(AttrTag::Int)
    } else if name == "ProjectX.GRI_X:ReplicatedGamePlaylist"@ {
        Some(AttrTag::Int)
    } else if name == "ProjectX.GRI_X:Reservations"@ {
        Some(AttrTag::Reservation)
    } else if name == "TAGame.Ball_Breakout_TA:AppliedDamage"@ {
        Some(AttrTag::AppliedDamage)
    } else if name == "TAGame.Ball_Breakout_TA:DamageIndex"@ {
        Some(AttrTag::Int)
    } else if name == "TAGame.Ball_Breakout_TA:LastTeamTouch"@ {
        Some(AttrTag::Byte)
    } else if name == "TAGame.Ball_TA:GameEvent"@ {
        Some(AttrTag::Flagged)
    } else if name == "TAGame.Ball_TA:HitTeamNum"@ {
        Some(AttrTag::Byte)
    } else if name == "TAGame.Ball_TA:ReplicatedAddedCarBounceScale"@ {
        Some(AttrTag::Float)
    } else if name == "TAGame.Ball_TA:ReplicatedBallMaxLinearSpeedScale"@ {
        Some(AttrTag::Float)
    } else if name == "TAGame.Ball_TA:ReplicatedBallScale"@ {
        Some(AttrTag::Float)
    } else if name == "TAGame.Ball_TA:ReplicatedExplosionData"@ {
        Some(AttrTag::Explosion)
    } else if name == "TAGame.Ball_TA:ReplicatedExplosionDataExtended"@ {
        Some(AttrTag::ExtendedExplosion)
    } else if name == "TAGame.Ball_TA:ReplicatedWorldBounceScale"@ {
        Some(AttrTag::Float)
    } else if name == "TAGame.BreakOutActor_Platform_TA:DamageState"@ {
        Some(AttrTag::DamageState)
    } else if name == "TAGame.CameraSettingsActor_TA:bUsingBehindView"@ {
        Some(AttrTag::Boolean)
    } else {
        spec_attr_tag_1(name)
    }
}

/// Looks up `name`; see the spec function of the same name.
pub fn attr_tag(name: &str) -> (r: Option<AttrTag>)
    ensures
        r == spec_attr_tag(name@),
{
    if str_eq(name, "Engine.Actor:bBlockActors") {
        Some(AttrTag::Boolean)
    } else if str_eq(name, "Engine.Actor:bCollideActors") {
        Some(AttrTag::Boolean)
    } else if str_eq(name, "Engine.Actor:bHidden") {
        Some(AttrTag::Boolean)
    } else if str_eq(name, "Engine.Actor:DrawScale") {
        Some(AttrTag::Float)
    } else if str_eq(name, "Engine.Actor:Role") {
        Some(AttrTag::Enumeration)
    } else if str_eq(name, "Engine.GameReplicationInfo:bMatchIsOver") {
        Some(AttrTag::Boolean)
    } else if str_eq(name, "Engine.GameReplicationInfo:GameClass") {
        Some(AttrTag::Flagged)
    } else if str_eq(name, "Engine.GameReplicationInfo:ServerName") {
        Some(AttrTag::Text)
    } else if str_eq(name, "Engine.Pawn:PlayerReplicationInfo") {
        Some(AttrTag::Flagged)
    } else if str_eq(name, "Engine.PlayerReplicationInfo:bBot") {
        Some(AttrTag::Boolean)
    } else if str_eq(name, "Engine.PlayerReplicationInfo:bIsSpectator") {
        Some(AttrTag::Boolean)
    } else if str_eq(name, "Engine.PlayerReplicationInfo:bReadyToPlay") {
        Some(AttrTag::Boolean)
    } else if str_eq(name, "Engine.PlayerReplicationInfo:bWaitingPlayer") {
        Some(AttrTag::Boolean)
    } else if str_eq(name, "Engine.PlayerReplicationInfo:Ping") {
        Some(AttrTag::Byte)
    } else if str_eq(name, "Engine.PlayerReplicationInfo:PlayerID") {
        Some(AttrTag::Int)
    } else if str_eq(name, "Engine.PlayerReplicationInfo:PlayerName") {
        Some(AttrTag::Text)
    } else if str_eq(name, "Engine.PlayerReplicationInfo:RemoteUserData") {
        Some(AttrTag::Text)
    } else if str_eq(name, "Engine.PlayerReplicationInfo:Score") {
        Some(AttrTag::Int)
    } else if str_eq(name, "Engine.PlayerReplicationInfo:Team") {
        Some(AttrTag::Flagged)
    } else if str_eq(name, "Engine.PlayerReplicationInfo:UniqueId") {
        Some(AttrTag::UniqueId)
    } else if str_eq(name, "Engine.TeamInfo:Score") {
        Some(AttrTag::Int)
    } else if str_eq(name, "ProjectX.GRI_X:bGameStarted") {
        Some(AttrTag::Boolean)
    } else if str_eq(name, "ProjectX.GRI_X:GameServerID") {
        Some(AttrTag::QWord)
    } else if str_eq(name, "ProjectX.GRI_X:MatchGUID") {
        Some(AttrTag::Text)
    } else if str_eq(name, "ProjectX.GRI_X:ReplicatedGameMutatorIndex") {
        Some(AttrTag::Int)
    } else if str_eq(name, "ProjectX.GRI_X:ReplicatedGamePlaylist") {
        Some(AttrTag::Int)
    } else if str_eq(name, "ProjectX.GRI_X:Reservations") {
        Some(AttrTag::Reservation)
    } else if str_eq(name, "TAGame.Ball_Breakout_TA:AppliedDamage") {
        Some(AttrTag::AppliedDamage)
    } else if str_eq(name, "TAGame.Ball_Breakout_TA:DamageIndex") {
        Some(AttrTag::Int)
    } else if str_eq(name, "TAGame.Ball_Breakout_TA:LastTeamTouch") {
        Some(AttrTag::Byte)
    } else if str_eq(name, "TAGame.Ball_TA:GameEvent") {
        Some(AttrTag::Flagged)
    } else if str_eq(name, "TAGame.Ball_TA:HitTeamNum") {
        Some(AttrTag::Byte)
    } else if str_eq(name, "TAGame.Ball_TA:ReplicatedAddedCarBounceScale") {
        Some(AttrTag::Float)
    } else if str_eq(name, "TAGame.Ball_TA:ReplicatedBallMaxLinearSpeedScale") {
        Some(AttrTag::Float)
    } else if str_eq(name, "TAGame.Ball_TA:ReplicatedBallScale") {
        Some(AttrTag::Float)
    } else if str_eq(name, "TAGame.Ball_TA:ReplicatedExplosionData") {
        Some(AttrTag::Explosion)
    } else if str_eq(name, "TAGame.Ball_TA:ReplicatedExplosionDataExtended") {
        Some(AttrTag::ExtendedExplosion)
    } else if str_eq(name, "TAGame.Ball_TA:ReplicatedWorldBounceScale") {
        Some(AttrTag::Float)
    } else if str_eq(name, "TAGame.BreakOutActor_Platform_TA:DamageState") {
        Some(AttrTag::DamageState)
    } else if str_eq(name, "TAGame.CameraSettingsActor_TA:bUsingBehindView") {
        Some(AttrTag::Boolean)
    } else {
        attr_tag_1(name)
    }
}

pub open spec fn spec_object_class_1(name: Seq<char>) -> Option<Seq<char>> {
    if name == "GameInfo_Breakout.GameInfo.GameInfo_Breakout:GameReplicationInfoArchetype"@ {
        Some("TAGame.GRI_TA"@)
    } else if name == "Gameinfo_Hockey.GameInfo.Gameinfo_Hockey:GameReplicationInfoArchetype"@ {
        Some("TAGame.GRI_TA"@)
    } else if name == "GameInfo_Items.GameInfo.GameInfo_Items:GameReplicationInfoArchetype"@ {
        Some("TAGame.GRI_TA"@)
    } else if name == "GameInfo_Season.GameInfo.GameInfo_Season:GameReplicationInfoArchetype"@ {
        Some("TAGame.GRI_TA"@)
    } else if name == "GameInfo_Soccar.GameInfo.GameInfo_Soccar:GameReplicationInfoArchetype"@ {
        Some("TAGame.GRI_TA"@)
    } else if name == "TAGame.Default__CameraSettingsActor_TA"@ {
        Some("TAGame.CameraSettingsActor_TA"@)
    } else if name == "TAGame.Default__PRI_TA"@ {
        Some("TAGame.PRI_TA"@)
    } else if name == "TheWorld:PersistentLevel.BreakOutActor_Platform_TA"@ {
        Some("TAGame.BreakOutActor_Platform_TA"@)
    } else if name == "TheWorld:PersistentLevel.CrowdActor_TA"@ {
        Some("TAGame.CrowdActor_TA"@)
    } else if name == "TheWorld:PersistentLevel.CrowdManager_TA"@ {
        Some("TAGame.CrowdManager_TA"@)
    } else if name == "TheWorld:PersistentLevel.InMapScoreboard_TA"@ {
        Some("TAGame.InMapScoreboard_TA"@)
    } else if name == "TheWorld:PersistentLevel.VehiclePickup_Boost_TA"@ {
        Some("TAGame.VehiclePickup_Boost_TA"@)
    } else {
        None
    }
}

fn object_class_1(name: &str) -> (r: Option<&'static str>)
    ensures
        match r {
            Some(s) => spec_object_class_1(name@) == Some(s@),
            None => spec_object_class_1(name@) is None,
        },
{
    if str_eq(name, "GameInfo_Breakout.GameInfo.GameInfo_Breakout:GameReplicationInfoArchetype") {
        Some("TAGame.GRI_TA")
    } else if str_eq(name, "Gameinfo_Hockey.GameInfo.Gameinfo_Hockey:GameReplicationInfoArchetype") {
        Some("TAGame.GRI_TA")
    } else if str_eq(name, "GameInfo_Items.GameInfo.GameInfo_Items:GameReplicationInfoArchetype") {
        Some("TAGame.GRI_TA")
    } else if str_eq(name, "GameInfo_Season.GameInfo.GameInfo_Season:GameReplicationInfoArchetype") {
        Some("TAGame.GRI_TA")
    } else if str_eq(name, "GameInfo_Soccar.GameInfo.GameInfo_Soccar:GameReplicationInfoArchetype") {
        Some("TAGame.GRI_TA")
    } else if str_eq(name, "TAGame.Default__CameraSettingsActor_TA") {
        Some("TAGame.CameraSettingsActor_TA")
    } else if str_eq(name, "TAGame.Default__PRI_TA") {
        Some("TAGame.PRI_TA")
    } else if str_eq(name, "TheWorld:PersistentLevel.BreakOutActor_Platform_TA") {
        Some("TAGame.BreakOutActor_Platform_TA")
    } else if str_eq(name, "TheWorld:PersistentLevel.CrowdActor_TA") {
        Some("TAGame.CrowdActor_TA")
    } else if str_eq(name, "TheWorld:PersistentLevel.CrowdManager_TA") {
        Some("TAGame.CrowdManager_TA")
    } else if str_eq(name, "TheWorld:PersistentLevel.InMapScoreboard_TA") {
        Some("TAGame.InMapScoreboard_TA")
    } else if str_eq(name, "TheWorld:PersistentLevel.VehiclePickup_Boost_TA") {
        Some("TAGame.VehiclePickup_Boost_TA")
    } else {
        None
    }
}

/// The concrete class an archetype object name spawns as, or `None` when
/// the object name itself is the class.
pub open spec fn spec_object_class(name: Seq<char>) -> Option<Seq<char>> {
    if name == "Archetypes.Ball.Ball_BasketBall_Mutator"@ {
        Some("TAGame.Ball_TA"@)
    } else if name == "Archetypes.Ball.Ball_Basketball"@ {
        Some("TAGame.Ball_TA"@)
    } else if name == "Archetypes.Ball.Ball_Breakout"@ {
        Some("TAGame.Ball_Breakout_TA"@)
    } else if name == "Archetypes.Ball.Ball_Default"@ {
        Some("TAGame.Ball_TA"@)
    } else if name == "Archetypes.Ball.Ball_Puck"@ {
        Some("TAGame.Ball_TA"@)
    } else if name == "Archetypes.Ball.CubeBall"@ {
        Some("TAGame.Ball_TA"@)
    } else if name == "Archetypes.Car.Car_Default"@ {
        Some("TAGame.Car_TA"@)
    } else if name == "Archetypes.CarComponents.CarComponent_Boost"@ {
        Some("TAGame.CarComponent_Boost_TA"@)
    } else if name == "Archetypes.CarComponents.CarComponent_Dodge"@ {
        Some("TAGame.CarComponent_Dodge_TA"@)
    } else if name == "Archetypes.CarComponents.CarComponent_DoubleJump"@ {
        Some("TAGame.CarComponent_DoubleJump_TA"@)
    } else if name == "Archetypes.CarComponents.CarComponent_FlipCar"@ {
        Some("TAGame.CarComponent_FlipCar_TA"@)
    } else if name == "Archetypes.CarComponents.CarComponent_Jump"@ {
        Some("TAGame.CarComponent_Jump_TA"@)
    } else if name == "Archetypes.GameEvent.GameEvent_Basketball"@ {
        Some("TAGame.GameEvent_Soccar_TA"@)
    } else if name == "Archetypes.GameEvent.GameEvent_BasketballPrivate"@ {
        Some("TAGame.GameEvent_SoccarPrivate_TA"@)
    } else if name == "Archetypes.GameEvent.GameEvent_BasketballSplitscreen"@ {
        Some("TAGame.GameEvent_SoccarSplitscreen_TA"@)
    } else if name == "Archetypes.GameEvent.GameEvent_Breakout"@ {
        Some("TAGame.GameEvent_Soccar_TA"@)
    } else if name == "Archetypes.GameEvent.GameEvent_Hockey"@ {
        Some("TAGame.GameEvent_Soccar_TA"@)
    } else if name == "Archetypes.GameEvent.GameEvent_HockeyPrivate"@ {
        Some("TAGame.GameEvent_SoccarPrivate_TA"@)
    } else if name == "Archetypes.GameEvent.GameEvent_HockeySplitscreen"@ {
        Some("TAGame.GameEvent_SoccarSplitscreen_TA"@)
    } else if name == "Archetypes.GameEvent.GameEvent_Items"@ {
        Some("TAGame.GameEvent_Soccar_TA"@)
    } else if name == "Archetypes.GameEvent.GameEvent_Season:CarArchetype"@ {
        Some("TAGame.Car_TA"@)
    } else if name == "Archetypes.GameEvent.GameEvent_Season"@ {
        Some("TAGame.GameEvent_Season_TA"@)
    } else if name == "Archetypes.GameEvent.GameEvent_Soccar"@ {
        Some("TAGame.GameEvent_Soccar_TA"@)
    } else if name == "Archetypes.GameEvent.GameEvent_SoccarPrivate"@ {
        Some("TAGame.GameEvent_SoccarPrivate_TA"@)
    } else if name == "Archetypes.GameEvent.GameEvent_SoccarSplitscreen"@ {
        Some("TAGame.GameEvent_SoccarSplitscreen_TA"@)
    } else if name == "Archetypes.SpecialPickups.SpecialPickup_BallFreeze"@ {
        Some("TAGame.SpecialPickup_BallFreeze_TA"@)
    } else if name == "Archetypes.SpecialPickups.SpecialPickup_BallGrapplingHook"@ {
        Some("TAGame.SpecialPickup_GrapplingHook_TA"@)
    } else if name == "Archetypes.SpecialPickups.SpecialPickup_BallLasso"@ {
        Some("TAGame.SpecialPickup_BallLasso_TA"@)
    } else if name == "Archetypes.SpecialPickups.SpecialPickup_BallSpring"@ {
        Some("TAGame.SpecialPickup_BallCarSpring_TA"@)
    } else if name == "Archetypes.SpecialPickups.SpecialPickup_BallVelcro"@ {
        Some("TAGame.SpecialPickup_BallVelcro_TA"@)
    } else if name == "Archetypes.SpecialPickups.SpecialPickup_Batarang"@ {
        Some("TAGame.SpecialPickup_Batarang_TA"@)
    } else if name == "Archetypes.SpecialPickups.SpecialPickup_BoostOverride"@ {
        Some("TAGame.SpecialPickup_BoostOverride_TA"@)
    } else if name == "Archetypes.SpecialPickups.SpecialPickup_CarSpring"@ {
        Some("TAGame.SpecialPickup_BallCarSpring_TA"@)
    } else if name == "Archetypes.SpecialPickups.SpecialPickup_GravityWell"@ {
        Some("TAGame.SpecialPickup_BallGravity_TA"@)
    } else if name == "Archetypes.SpecialPickups.SpecialPickup_StrongHit"@ {
        Some("TAGame.SpecialPickup_HitForce_TA"@)
    } else if name == "Archetypes.SpecialPickups.SpecialPickup_Swapper"@ {
        Some("TAGame.SpecialPickup_Swapper_TA"@)
    } else if name == "Archetypes.SpecialPickups.SpecialPickup_Tornado"@ {
        Some("TAGame.SpecialPickup_Tornado_TA"@)
    } else if name == "Archetypes.Teams.Team0"@ {
        Some("TAGame.Team_Soccar_TA"@)
    } else if name == "Archetypes.Teams.Team1"@ {
        Some("TAGame.Team_Soccar_TA"@)
    } else if name == "GameInfo_Basketball.GameInfo.GameInfo_Basketball:GameReplicationInfoArchetype"@ {
        Some("TAGame.GRI_TA"@)
    } else {
        spec_object_class_1(name)
    }
}

/// Looks up `name`; see the spec function of the same name.
pub fn object_class(name: &str) -> (r: Option<&'static str>)
    ensures
        match r {
            Some(s) => spec_object_class(name@) == Some(s@),
            None => spec_object_class(name@) is None,
        },
{
    if str_eq(name, "Archetypes.Ball.Ball_BasketBall_Mutator") {
        Some("TAGame.Ball_TA")
    } else if str_eq(name, "Archetypes.Ball.Ball_Basketball") {
        Some("TAGame.Ball_TA")
    } else if str_eq(name, "Archetypes.Ball.Ball_Breakout") {
        Some("TAGame.Ball_Breakout_TA")
    } else if str_eq(name, "Archetypes.Ball.Ball_Default") {
        Some("TAGame.Ball_TA")
    } else if str_eq(name, "Archetypes.Ball.Ball_Puck") {
        Some("TAGame.Ball_TA")
    } else if str_eq(name, "Archetypes.Ball.CubeBall") {
        Some("TAGame.Ball_TA")
    } else if str_eq(name, "Archetypes.Car.Car_Default") {
        Some("TAGame.Car_TA")
    } else if str_eq(name, "Archetypes.CarComponents.CarComponent_Boost") {
        Some("TAGame.CarComponent_Boost_TA")
    } else if str_eq(name, "Archetypes.CarComponents.CarComponent_Dodge") {
        Some("TAGame.CarComponent_Dodge_TA")
    } else if str_eq(name, "Archetypes.CarComponents.CarComponent_DoubleJump") {
        Some("TAGame.CarComponent_DoubleJump_TA")
    } else if str_eq(name, "Archetypes.CarComponents.CarComponent_FlipCar") {
        Some("TAGame.CarComponent_FlipCar_TA")
    } else if str_eq(name, "Archetypes.CarComponents.CarComponent_Jump") {
        Some("TAGame.CarComponent_Jump_TA")
    } else if str_eq(name, "Archetypes.GameEvent.GameEvent_Basketball") {
        Some("TAGame.GameEvent_Soccar_TA")
    } else if str_eq(name, "Archetypes.GameEvent.GameEvent_BasketballPrivate") {
        Some("TAGame.GameEvent_SoccarPrivate_TA")
    } else if str_eq(name, "Archetypes.GameEvent.GameEvent_BasketballSplitscreen") {
        Some("TAGame.GameEvent_SoccarSplitscreen_TA")
    } else if str_eq(name, "Archetypes.GameEvent.GameEvent_Breakout") {
        Some("TAGame.GameEvent_Soccar_TA")
    } else if str_eq(name, "Archetypes.GameEvent.GameEvent_Hockey") {
        Some("TAGame.GameEvent_Soccar_TA")
    } else if str_eq(name, "Archetypes.GameEvent.GameEvent_HockeyPrivate") {
        Some("TAGame.GameEvent_SoccarPrivate_TA")
    } else if str_eq(name, "Archetypes.GameEvent.GameEvent_HockeySplitscreen") {
        Some("TAGame.GameEvent_SoccarSplitscreen_TA")
    } else if str_eq(name, "Archetypes.GameEvent.GameEvent_Items") {
        Some("TAGame.GameEvent_Soccar_TA")
    } else if str_eq(name, "Archetypes.GameEvent.GameEvent_Season:CarArchetype") {
        Some("TAGame.Car_TA")
    } else if str_eq(name, "Archetypes.GameEvent.GameEvent_Season") {
        Some("TAGame.GameEvent_Season_TA")
    } else if str_eq(name, "Archetypes.GameEvent.GameEvent_Soccar") {
        Some("TAGame.GameEvent_Soccar_TA")
    } else if str_eq(name, "Archetypes.GameEvent.GameEvent_SoccarPrivate") {
        Some("TAGame.GameEvent_SoccarPrivate_TA")
    } else if str_eq(name, "Archetypes.GameEvent.GameEvent_SoccarSplitscreen") {
        Some("TAGame.GameEvent_SoccarSplitscreen_TA")
    } else if str_eq(name, "Archetypes.SpecialPickups.SpecialPickup_BallFreeze") {
        Some("TAGame.SpecialPickup_BallFreeze_TA")
    } else if str_eq(name, "Archetypes.SpecialPickups.SpecialPickup_BallGrapplingHook") {
        Some("TAGame.SpecialPickup_GrapplingHook_TA")
    } else if str_eq(name, "Archetypes.SpecialPickups.SpecialPickup_BallLasso") {
        Some("TAGame.SpecialPickup_BallLasso_TA")
    } else if str_eq(name, "Archetypes.SpecialPickups.SpecialPickup_BallSpring") {
        Some("TAGame.SpecialPickup_BallCarSpring_TA")
    } else if str_eq(name, "Archetypes.SpecialPickups.SpecialPickup_BallVelcro") {
        Some("TAGame.SpecialPickup_BallVelcro_TA")
    } else if str_eq(name, "Archetypes.SpecialPickups.SpecialPickup_Batarang") {
        Some("TAGame.SpecialPickup_Batarang_TA")
    } else if str_eq(name, "Archetypes.SpecialPickups.SpecialPickup_BoostOverride") {
        Some("TAGame.SpecialPickup_BoostOverride_TA")
    } else if str_eq(name, "Archetypes.SpecialPickups.SpecialPickup_CarSpring") {
        Some("TAGame.SpecialPickup_BallCarSpring_TA")
    } else if str_eq(name, "Archetypes.SpecialPickups.SpecialPickup_GravityWell") {
        Some("TAGame.SpecialPickup_BallGravity_TA")
    } else if str_eq(name, "Archetypes.SpecialPickups.SpecialPickup_StrongHit") {
        Some("TAGame.SpecialPickup_HitForce_TA")
    } else if str_eq(name, "Archetypes.SpecialPickups.SpecialPickup_Swapper") {
        Some("TAGame.SpecialPickup_Swapper_TA")
    } else if str_eq(name, "Archetypes.SpecialPickups.SpecialPickup_Tornado") {
        Some("TAGame.SpecialPickup_Tornado_TA")
    } else if str_eq(name, "Archetypes.Teams.Team0") {
        Some("TAGame.Team_Soccar_TA")
    } else if str_eq(name, "Archetypes.Teams.Team1") {
        Some("TAGame.Team_Soccar_TA")
    } else if str_eq(name, "GameInfo_Basketball.GameInfo.GameInfo_Basketball:GameReplicationInfoArchetype") {
        Some("TAGame.GRI_TA")
    } else {
        object_class_1(name)
    }
}

pub open spec fn spec_parent_class_1(name: Seq<char>) -> Option<Seq<char>> {
    if name == "TAGame.SpecialPickup_HitForce_TA"@ {
        Some("TAGame.SpecialPickup_TA"@)
    } else if name == "TAGame.SpecialPickup_Spring_TA"@ {
        Some("TAGame.SpecialPickup_Targeted_TA"@)
    } else if name == "TAGame.SpecialPickup_Swapper_TA"@ {
        Some("TAGame.SpecialPickup_Targeted_TA"@)
    } else if name == "TAGame.SpecialPickup_TA"@ {
        Some("TAGame.CarComponent_TA"@)
    } else if name == "TAGame.SpecialPickup_Targeted_TA"@ {
        Some("TAGame.SpecialPickup_TA"@)
    } else if name == "TAGame.SpecialPickup_Tornado_TA"@ {
        Some("TAGame.SpecialPickup_TA"@)
    } else if name == "TAGame.Team_Soccar_TA"@ {
        Some("TAGame.Team_TA"@)
    } else if name == "TAGame.Team_TA"@ {
        Some("Engine.TeamInfo"@)
    } else if name == "TAGame.Vehicle_TA"@ {
        Some("TAGame.RBActor_TA"@)
    } else if name == "TAGame.VehiclePickup_Boost_TA"@ {
        Some("TAGame.VehiclePickup_TA"@)
    } else if name == "TAGame.VehiclePickup_TA"@ {
        Some("Engine.ReplicationInfo"@)
    } else {
        None
    }
}

fn parent_class_1(name: &str) -> (r: Option<&'static str>)
    ensures
        match r {
            Some(s) => spec_parent_class_1(name@) == Some(s@),
            None => spec_parent_class_1(name@) is None,
        },
{
    if str_eq(name, "TAGame.SpecialPickup_HitForce_TA") {
        Some("TAGame.SpecialPickup_TA")
    } else if str_eq(name, "TAGame.SpecialPickup_Spring_TA") {
        Some("TAGame.SpecialPickup_Targeted_TA")
    } else if str_eq(name, "TAGame.SpecialPickup_Swapper_TA") {
        Some("TAGame.SpecialPickup_Targeted_TA")
    } else if str_eq(name, "TAGame.SpecialPickup_TA") {
        Some("TAGame.CarComponent_TA")
    } else if str_eq(name, "TAGame.SpecialPickup_Targeted_TA") {
        Some("TAGame.SpecialPickup_TA")
    } else if str_eq(name, "TAGame.SpecialPickup_Tornado_TA") {
        Some("TAGame.SpecialPickup_TA")
    } else if str_eq(name, "TAGame.Team_Soccar_TA") {
        Some("TAGame.Team_TA")
    } else if str_eq(name, "TAGame.Team_TA") {
        Some("Engine.TeamInfo")
    } else if str_eq(name, "TAGame.Vehicle_TA") {
        Some("TAGame.RBActor_TA")
    } else if str_eq(name, "TAGame.VehiclePickup_Boost_TA") {
        Some("TAGame.VehiclePickup_TA")
    } else if str_eq(name, "TAGame.VehiclePickup_TA") {
        Some("Engine.ReplicationInfo")
    } else {
        None
    }
}

/// The parent class of a class name, or `None` at the roots of the
/// hierarchy.
pub open spec fn spec_parent_class(name: Seq<char>) -> Option<Seq<char>> {
    if name == "Engine.Actor"@ {
        Some("Core.Object"@)
    } else if name == "Engine.GameReplicationInfo"@ {
        Some("Engine.ReplicationInfo"@)
    } else if name == "Engine.Info"@ {
        Some("Engine.Actor"@)
    } else if name == "Engine.Pawn"@ {
        Some("Engine.Actor"@)
    } else if name == "Engine.PlayerReplicationInfo"@ {
        Some("Engine.ReplicationInfo"@)
    } else if name == "Engine.ReplicationInfo"@ {
        Some("Engine.Info"@)
    } else if name == "Engine.TeamInfo"@ {
        Some("Engine.ReplicationInfo"@)
    } else if name == "ProjectX.GRI_X"@ {
        Some("Engine.GameReplicationInfo"@)
    } else if name == "ProjectX.Pawn_X"@ {
        Some("Engine.Pawn"@)
    } else if name == "ProjectX.PRI_X"@ {
        Some("Engine.PlayerReplicationInfo"@)
    } else if name == "TAGame.Ball_TA"@ {
        Some("TAGame.RBActor_TA"@)
    } else if name == "TAGame.CameraSettingsActor_TA"@ {
        Some("Engine.ReplicationInfo"@)
    } else if name == "TAGame.Car_Season_TA"@ {
        Some("TAGame.PRI_TA"@)
    } else if name == "TAGame.Car_TA"@ {
        Some("TAGame.Vehicle_TA"@)
    } else if name == "TAGame.CarComponent_Boost_TA"@ {
        Some("TAGame.CarComponent_TA"@)
    } else if name == "TAGame.CarComponent_Dodge_TA"@ {
        Some("TAGame.CarComponent_TA"@)
    } else if name == "TAGame.CarComponent_DoubleJump_TA"@ {
        Some("TAGame.CarComponent_TA"@)
    } else if name == "TAGame.CarComponent_FlipCar_TA"@ {
        Some("TAGame.CarComponent_TA"@)
    } else if name == "TAGame.CarComponent_Jump_TA"@ {
        Some("TAGame.CarComponent_TA"@)
    } else if name == "TAGame.CarComponent_TA"@ {
        Some("Engine.ReplicationInfo"@)
    } else if name == "TAGame.CrowdActor_TA"@ {
        Some("Engine.ReplicationInfo"@)
    } else if name == "TAGame.CrowdManager_TA"@ {
        Some("Engine.ReplicationInfo"@)
    } else if name == "TAGame.GameEvent_Season_TA"@ {
        Some("TAGame.GameEvent_Soccar_TA"@)
    } else if name == "TAGame.GameEvent_Soccar_TA"@ {
        Some("TAGame.GameEvent_Team_TA"@)
    } else if name == "TAGame.GameEvent_SoccarPrivate_TA"@ {
        Some("TAGame.GameEvent_Soccar_TA"@)
    } else if name == "TAGame.GameEvent_SoccarSplitscreen_TA"@ {
        Some("TAGame.GameEvent_SoccarPrivate_TA"@)
    } else if name == "TAGame.GameEvent_TA"@ {
        Some("Engine.ReplicationInfo"@)
    } else if name == "TAGame.GameEvent_Team_TA"@ {
        Some("TAGame.GameEvent_TA"@)
    } else if name == "TAGame.GRI_TA"@ {
        Some("ProjectX.GRI_X"@)
    } else if name == "TAGame.InMapScoreboard_TA"@ {
        Some("Engine.Actor"@)
    } else if name == "TAGame.PRI_TA"@ {
        Some("ProjectX.PRI_X"@)
    } else if name == "TAGame.RBActor_TA"@ {
        Some("ProjectX.Pawn_X"@)
    } else if name == "TAGame.SpecialPickup_BallCarSpring_TA"@ {
        Some("TAGame.SpecialPickup_Spring_TA"@)
    } else if name == "TAGame.SpecialPickup_BallFreeze_TA"@ {
        Some("TAGame.SpecialPickup_Targeted_TA"@)
    } else if name == "TAGame.SpecialPickup_BallGravity_TA"@ {
        Some("TAGame.SpecialPickup_TA"@)
    } else if name == "TAGame.SpecialPickup_BallLasso_TA"@ {
        Some("TAGame.SpecialPickup_GrapplingHook_TA"@)
    } else if name == "TAGame.SpecialPickup_BallVelcro_TA"@ {
        Some("TAGame.SpecialPickup_TA"@)
    } else if name == "TAGame.SpecialPickup_Batarang_TA"@ {
        Some("TAGame.SpecialPickup_BallLasso_TA"@)
    } else if name == "TAGame.SpecialPickup_BoostOverride_TA"@ {
        Some("TAGame.SpecialPickup_Targeted_TA"@)
    } else if name == "TAGame.SpecialPickup_GrapplingHook_TA"@ {
        Some("TAGame.SpecialPickup_Targeted_TA"@)
    } else {
        spec_parent_class_1(name)
    }
}

/// Looks up `name`; see the spec function of the same name.
pub fn parent_class(name: &str) -> (r: Option<&'static str>)
    ensures
        match r {
            Some(s) => spec_parent_class(name@) == Some(s@),
            None => spec_parent_class(name@) is None,
        },
{
    if str_eq(name, "Engine.Actor") {
        Some("Core.Object")
    } else if str_eq(name, "Engine.GameReplicationInfo") {
        Some("Engine.ReplicationInfo")
    } else if str_eq(name, "Engine.Info") {
        Some("Engine.Actor")
    } else if str_eq(name, "Engine.Pawn") {
        Some("Engine.Actor")
    } else if str_eq(name, "Engine.PlayerReplicationInfo") {
        Some("Engine.ReplicationInfo")
    } else if str_eq(name, "Engine.ReplicationInfo") {
        Some("Engine.Info")
    } else if str_eq(name, "Engine.TeamInfo") {
        Some("Engine.ReplicationInfo")
    } else if str_eq(name, "ProjectX.GRI_X") {
        Some("Engine.GameReplicationInfo")
    } else if str_eq(name, "ProjectX.Pawn_X") {
        Some("Engine.Pawn")
    } else if str_eq(name, "ProjectX.PRI_X") {
        Some("Engine.PlayerReplicationInfo")
    } else if str_eq(name, "TAGame.Ball_TA") {
        Some("TAGame.RBActor_TA")
    } else if str_eq(name, "TAGame.CameraSettingsActor_TA") {
        Some("Engine.ReplicationInfo")
    } else if str_eq(name, "TAGame.Car_Season_TA") {
        Some("TAGame.PRI_TA")
    } else if str_eq(name, "TAGame.Car_TA") {
        Some("TAGame.Vehicle_TA")
    } else if str_eq(name, "TAGame.CarComponent_Boost_TA") {
        Some("TAGame.CarComponent_TA")
    } else if str_eq(name, "TAGame.CarComponent_Dodge_TA") {
        Some("TAGame.CarComponent_TA")
    } else if str_eq(name, "TAGame.CarComponent_DoubleJump_TA") {
        Some("TAGame.CarComponent_TA")
    } else if str_eq(name, "TAGame.CarComponent_FlipCar_TA") {
        Some("TAGame.CarComponent_TA")
    } else if str_eq(name, "TAGame.CarComponent_Jump_TA") {
        Some("TAGame.CarComponent_TA")
    } else if str_eq(name, "TAGame.CarComponent_TA") {
        Some("Engine.ReplicationInfo")
    } else if str_eq(name, "TAGame.CrowdActor_TA") {
        Some("Engine.ReplicationInfo")
    } else if str_eq(name, "TAGame.CrowdManager_TA") {
        Some("Engine.ReplicationInfo")
    } else if str_eq(name, "TAGame.GameEvent_Season_TA") {
        Some("TAGame.GameEvent_Soccar_TA")
    } else if str_eq(name, "TAGame.GameEvent_Soccar_TA") {
        Some("TAGame.GameEvent_Team_TA")
    } else if str_eq(name, "TAGame.GameEvent_SoccarPrivate_TA") {
        Some("TAGame.GameEvent_Soccar_TA")
    } else if str_eq(name, "TAGame.GameEvent_SoccarSplitscreen_TA") {
        Some("TAGame.GameEvent_SoccarPrivate_TA")
    } else if str_eq(name, "TAGame.GameEvent_TA") {
        Some("Engine.ReplicationInfo")
    } else if str_eq(name, "TAGame.GameEvent_Team_TA") {
        Some("TAGame.GameEvent_TA")
    } else if str_eq(name, "TAGame.GRI_TA") {
        Some("ProjectX.GRI_X")
    } else if str_eq(name, "TAGame.InMapScoreboard_TA") {
        Some("Engine.Actor")
    } else if str_eq(name, "TAGame.PRI_TA") {
        Some("ProjectX.PRI_X")
    } else if str_eq(name, "TAGame.RBActor_TA") {
        Some("ProjectX.Pawn_X")
    } else if str_eq(name, "TAGame.SpecialPickup_BallCarSpring_TA") {
        Some("TAGame.SpecialPickup_Spring_TA")
    } else if str_eq(name, "TAGame.SpecialPickup_BallFreeze_TA") {
        Some("TAGame.SpecialPickup_Targeted_TA")
    } else if str_eq(name, "TAGame.SpecialPickup_BallGravity_TA") {
        Some("TAGame.SpecialPickup_TA")
    } else if str_eq(name, "TAGame.SpecialPickup_BallLasso_TA") {
        Some("TAGame.SpecialPickup_GrapplingHook_TA")
    } else if str_eq(name, "TAGame.SpecialPickup_BallVelcro_TA") {
        Some("TAGame.SpecialPickup_TA")
    } else if str_eq(name, "TAGame.SpecialPickup_Batarang_TA") {
        Some("TAGame.SpecialPickup_BallLasso_TA")
    } else if str_eq(name, "TAGame.SpecialPickup_BoostOverride_TA") {
        Some("TAGame.SpecialPickup_Targeted_TA")
    } else if str_eq(name, "TAGame.SpecialPickup_GrapplingHook_TA") {
        Some("TAGame.SpecialPickup_Targeted_TA")
    } else {
        parent_class_1(name)
    }
}

} // verus!
