use vstd::prelude::*;
use crate::state::GameMode;

verus! {

/// Gameplay category of an object, as the collision and portal logic sees it.
#[derive(Debug, Clone, Copy, PartialEq, Eq, Hash, Structural)]
pub enum GameObjectType {
    Solid,
    Hazard,
    Sawblade,
    InverseGravityPortal,
    NormalGravityPortal,
    ShipPortal,
    CubePortal,
    Decoration,
    YellowJumpPad,
    PinkJumpPad,
    GravityPad,
    YellowJumpRing,
    PinkJumpRing,
    GravityRing,
    InverseMirrorPortal,
    NormalMirrorPortal,
    BallPortal,
    RegularSizePortal,
    MiniSizePortal,
    UfoPortal,
    Modifier,
    Breakable,
    SecretCoin,
    DualPortal,
    SoloPortal,
    Slope,
    WavePortal,
    RobotPortal,
    TeleportPortal,
    GreenRing,
    Collectible,
    UserCoin,
    DropRing,
    SpiderPortal,
    RedJumpPad,
    RedJumpRing,
    CustomRing,
    DashRing,
    GravityDashRing,
    CollisionObject,
    Special,
    SwingPortal,
    GravityTogglePortal,
    SpiderOrb,
    SpiderPad,
    TeleportOrb,
    AnimatedHazard,
    Unknown,
}

/// Shape of an object's hitbox.
#[derive(Debug, Clone, Copy, PartialEq, Eq, Hash, Structural)]
pub enum HitboxShape {
    Rectangle,
    Circle,
}

/// The category of each object id; ids outside the table are `Unknown`.
pub open spec fn object_type_of(id: i32) -> GameObjectType {
    if (1 <= id && id <= 4) || (6 <= id && id <= 7) || id == 63
        || (69 <= id && id <= 72) || (74 <= id && id <= 78) || (81 <= id && id <= 83)
        || (90 <= id && id <= 96) || (116 <= id && id <= 119)
        || (121 <= id && id <= 122) || id == 146 || (160 <= id && id <= 163)
        || (165 <= id && id <= 169) || id == 173 || id == 175
        || (207 <= id && id <= 210) || (212 <= id && id <= 213)
        || (247 <= id && id <= 250) || (252 <= id && id <= 258)
        || (260 <= id && id <= 261) || (263 <= id && id <= 265)
        || (267 <= id && id <= 272) || (274 <= id && id <= 275) || id == 467
        || (469 <= id && id <= 471) || (1203 <= id && id <= 1204)
        || (1209 <= id && id <= 1210) || (1221 <= id && id <= 1222) || id == 1226
    {
        GameObjectType::Solid
    } else if id == 64 || id == 195 || id == 206 || id == 220 || id == 661
        || (1155 <= id && id <= 1157) || id == 1208 || id == 1910
    {
        GameObjectType::Solid
    } else if id == 40 || id == 147 || id == 215 || (369 <= id && id <= 370)
        || (1903 <= id && id <= 1905)
    {
        GameObjectType::Solid
    } else if (170 <= id && id <= 172) || id == 174 || id == 192 {
        GameObjectType::Solid
    } else if id == 468 || id == 475 || id == 1260 {
        GameObjectType::Solid
    } else if id == 62 || id == 65 || id == 66 || id == 68 {
        GameObjectType::Solid
    } else if id == 1202 || id == 1262 {
        GameObjectType::Solid
    } else if id == 1220 || id == 1264 {
        GameObjectType::Solid
    } else if id == 196 || id == 219 || id == 1911 {
        GameObjectType::Solid
    } else if id == 204 {
        GameObjectType::Solid
    } else if (662 <= id && id <= 664) {
        GameObjectType::Solid
    } else if id == 1561 || id == 1567 || id == 1566 || id == 1565 || id == 1227 || id == 328
        || id == 197 || id == 194 || id == 176 || id == 1562 || id == 1343 || id == 1340
        || id == 34
    {
        GameObjectType::Solid
    } else if id == 143 {
        GameObjectType::Breakable
    } else if id == 8 || id == 144 || id == 177 || id == 216 || id == 103 || id == 145
        || id == 218 || id == 39 || id == 205 || id == 217 || id == 720 || id == 991
        || id == 1731 || id == 1733 || id == 61 || id == 446 || id == 1719 || id == 1728
        || id == 365 || id == 667 || id == 1716 || id == 1730 || id == 392
        || (458 <= id && id <= 459) || id == 768 || id == 1727 || id == 447
        || id == 1729 || id == 135 || id == 1711 || id == 422 || id == 1726 || id == 244
        || id == 1721 || id == 243 || id == 1720 || id == 421 || id == 1725 || id == 9
        || id == 1715 || id == 989 || id == 1732 || id == 1714 || id == 1712
        || id == 368 || id == 1722 || id == 1713 || id == 178 || id == 919 || id == 179
    {
        GameObjectType::Hazard
    } else if id == 363 || id == 1717 || id == 364 || id == 366 || id == 1718 {
        GameObjectType::Hazard
    } else if id == 88 || id == 186 || id == 740 || id == 1705 || id == 89 || id == 1706
        || id == 98 || id == 1707 || id == 183 || id == 184 || id == 185 || id == 187
        || id == 741 || id == 188 || id == 742 || id == 397 || id == 1708 || id == 398
        || id == 1709 || id == 399 || id == 1710 || id == 675 || id == 1734 || id == 676
        || id == 1735 || id == 677 || id == 1736 || id == 678 || id == 679 || id == 680
        || id == 918 || (1582 <= id && id <= 1583) || id == 1619 || id == 1620
        || (1701 <= id && id <= 1703)
    {
        GameObjectType::Sawblade
    } else if id == 11 {
        GameObjectType::InverseGravityPortal
    } else if id == 10 {
        GameObjectType::NormalGravityPortal
    } else if id == 13 {
        GameObjectType::ShipPortal
    } else if id == 12 {
        GameObjectType::CubePortal
    } else if id == 47 {
        GameObjectType::BallPortal
    } else if id == 111 {
        GameObjectType::UfoPortal
    } else if id == 660 {
        GameObjectType::WavePortal
    } else if id == 99 {
        GameObjectType::MiniSizePortal
    } else if id == 101 {
        GameObjectType::RegularSizePortal
    } else if (200 <= id && id <= 203) || id == 1334 {
        GameObjectType::Special
    } else if id == 289 || id == 294 || id == 299 || id == 305 || id == 309 || id == 315
        || id == 321 || id == 326 || id == 331 || id == 337 || id == 343 || id == 349
        || id == 353 || id == 371 || id == 483 || id == 492 || id == 651 || id == 665
        || id == 673 || id == 709 || id == 711 || id == 726 || id == 728 || id == 886
        || id == 1338 || id == 1341 || id == 1344 || id == 1723 || id == 1743
        || id == 1745 || id == 1747 || id == 1749 || id == 1906 || id == 291
        || id == 295 || id == 301 || id == 307 || id == 311 || id == 317 || id == 323
        || id == 327 || id == 333 || id == 339 || id == 345 || id == 351 || id == 355
        || id == 367 || id == 372 || id == 484 || id == 493 || id == 652 || id == 666
        || id == 674 || id == 710 || id == 712 || id == 727 || id == 729 || id == 887
        || id == 1339 || id == 1342 || id == 1345 || id == 1724 || id == 1744
        || id == 1746 || id == 1748 || id == 1750 || id == 1907
    {
        GameObjectType::Slope
    } else if id == 35 {
        GameObjectType::YellowJumpPad
    } else if id == 140 {
        GameObjectType::PinkJumpPad
    } else if id == 67 {
        GameObjectType::GravityPad
    } else if id == 36 {
        GameObjectType::YellowJumpRing
    } else if id == 84 {
        GameObjectType::PinkJumpRing
    } else if id == 141 {
        GameObjectType::GravityRing
    } else {
        GameObjectType::Unknown
    }
}

/// Hitbox shape and base width and height of each object id, the sizes in
/// hundredths of a world unit. Ids outside the table are 30 by 30 rectangles.
pub open spec fn hitbox_of(id: i32) -> (HitboxShape, u32, u32) {
    if (1 <= id && id <= 4) || (6 <= id && id <= 7) || id == 63
        || (69 <= id && id <= 72) || (74 <= id && id <= 78) || (81 <= id && id <= 83)
        || (90 <= id && id <= 96) || (116 <= id && id <= 119)
        || (121 <= id && id <= 122) || id == 146 || (160 <= id && id <= 163)
        || (165 <= id && id <= 169) || id == 173 || id == 175
        || (207 <= id && id <= 210) || (212 <= id && id <= 213)
        || (247 <= id && id <= 250) || (252 <= id && id <= 258)
        || (260 <= id && id <= 261) || (263 <= id && id <= 265)
        || (267 <= id && id <= 272) || (274 <= id && id <= 275) || id == 467
        || (469 <= id && id <= 471) || (1203 <= id && id <= 1204)
        || (1209 <= id && id <= 1210) || (1221 <= id && id <= 1222) || id == 1226
    {
        (HitboxShape::Rectangle, 3000, 3000)
    } else if id == 64 || id == 195 || id == 206 || id == 220 || id == 661
        || (1155 <= id && id <= 1157) || id == 1208 || id == 1910
    {
        (HitboxShape::Rectangle, 1500, 1500)
    } else if id == 40 || id == 147 || id == 215 || (369 <= id && id <= 370)
        || (1903 <= id && id <= 1905)
    {
        (HitboxShape::Rectangle, 3000, 1400)
    } else if (170 <= id && id <= 172) || id == 174 || id == 192 {
        (HitboxShape::Rectangle, 3000, 2100)
    } else if id == 468 || id == 475 || id == 1260 {
        (HitboxShape::Rectangle, 3000, 150)
    } else if id == 62 || id == 65 || id == 66 || id == 68 {
        (HitboxShape::Rectangle, 3000, 1600)
    } else if id == 1202 || id == 1262 {
        (HitboxShape::Rectangle, 3000, 300)
    } else if id == 1220 || id == 1264 {
        (HitboxShape::Rectangle, 3000, 600)
    } else if id == 196 || id == 219 || id == 1911 {
        (HitboxShape::Rectangle, 1500, 800)
    } else if id == 204 {
        (HitboxShape::Rectangle, 800, 1500)
    } else if (662 <= id && id <= 664) {
        (HitboxShape::Rectangle, 3000, 1500)
    } else if id == 1561 {
        (HitboxShape::Rectangle, 3000, 1000)
    } else if id == 1567 {
        (HitboxShape::Rectangle, 1500, 1000)
    } else if id == 1566 {
        (HitboxShape::Rectangle, 1200, 1200)
    } else if id == 1565 {
        (HitboxShape::Rectangle, 1700, 1700)
    } else if id == 1227 {
        (HitboxShape::Rectangle, 3000, 700)
    } else if id == 328 {
        (HitboxShape::Rectangle, 2200, 2200)
    } else if id == 197 {
        (HitboxShape::Rectangle, 2200, 2100)
    } else if id == 194 {
        (HitboxShape::Rectangle, 2100, 2100)
    } else if id == 176 {
        (HitboxShape::Rectangle, 1400, 2100)
    } else if id == 1562 {
        (HitboxShape::Rectangle, 3000, 200)
    } else if id == 1343 {
        (HitboxShape::Rectangle, 2500, 300)
    } else if id == 1340 {
        (HitboxShape::Rectangle, 2700, 200)
    } else if id == 34 {
        (HitboxShape::Rectangle, 3700, 2300)
    } else if id == 143 {
        (HitboxShape::Rectangle, 3000, 3000)
    } else if id == 8 || id == 144 || id == 177 || id == 216 {
        (HitboxShape::Rectangle, 600, 1200)
    } else if id == 103 || id == 145 || id == 218 {
        (HitboxShape::Rectangle, 400, 760)
    } else if id == 39 || id == 205 || id == 217 {
        (HitboxShape::Rectangle, 600, 560)
    } else if id == 720 || id == 991 || id == 1731 || id == 1733 {
        (HitboxShape::Rectangle, 240, 320)
    } else if id == 61 || id == 446 || id == 1719 || id == 1728 {
        (HitboxShape::Rectangle, 900, 720)
    } else if id == 365 || id == 667 || id == 1716 || id == 1730 {
        (HitboxShape::Rectangle, 900, 600)
    } else if id == 392 || (458 <= id && id <= 459) {
        (HitboxShape::Rectangle, 260, 480)
    } else if id == 768 || id == 1727 {
        (HitboxShape::Rectangle, 450, 520)
    } else if id == 447 || id == 1729 {
        (HitboxShape::Rectangle, 520, 720)
    } else if id == 135 || id == 1711 {
        (HitboxShape::Rectangle, 1410, 2000)
    } else if id == 422 || id == 1726 {
        (HitboxShape::Rectangle, 600, 440)
    } else if id == 244 || id == 1721 {
        (HitboxShape::Rectangle, 600, 680)
    } else if id == 243 || id == 1720 {
        (HitboxShape::Rectangle, 600, 720)
    } else if id == 421 || id == 1725 {
        (HitboxShape::Rectangle, 900, 520)
    } else if id == 9 || id == 1715 {
        (HitboxShape::Rectangle, 900, 1080)
    } else if id == 989 || id == 1732 {
        (HitboxShape::Rectangle, 900, 1200)
    } else if id == 1714 {
        (HitboxShape::Rectangle, 1140, 1640)
    } else if id == 1712 {
        (HitboxShape::Rectangle, 1350, 2240)
    } else if id == 368 || id == 1722 {
        (HitboxShape::Rectangle, 900, 400)
    } else if id == 1713 {
        (HitboxShape::Rectangle, 1170, 2000)
    } else if id == 178 {
        (HitboxShape::Rectangle, 600, 640)
    } else if id == 919 {
        (HitboxShape::Rectangle, 2500, 600)
    } else if id == 179 {
        (HitboxShape::Rectangle, 400, 800)
    } else if id == 88 || id == 186 || id == 740 || id == 1705 {
        (HitboxShape::Circle, 3230, 3230)
    } else if id == 89 || id == 1706 {
        (HitboxShape::Circle, 2160, 2160)
    } else if id == 98 || id == 1707 {
        (HitboxShape::Circle, 1200, 1200)
    } else if id == 183 {
        (HitboxShape::Circle, 1566, 1566)
    } else if id == 184 {
        (HitboxShape::Circle, 2040, 2040)
    } else if id == 185 {
        (HitboxShape::Circle, 285, 285)
    } else if id == 187 || id == 741 {
        (HitboxShape::Circle, 2196, 2196)
    } else if id == 188 || id == 742 {
        (HitboxShape::Circle, 1260, 1260)
    } else if id == 397 || id == 1708 {
        (HitboxShape::Circle, 2890, 2890)
    } else if id == 398 || id == 1709 {
        (HitboxShape::Circle, 1744, 1744)
    } else if id == 399 || id == 1710 {
        (HitboxShape::Circle, 1290, 1290)
    } else if id == 675 || id == 1734 {
        (HitboxShape::Circle, 3200, 3200)
    } else if id == 676 || id == 1735 {
        (HitboxShape::Circle, 1751, 1751)
    } else if id == 677 || id == 1736 {
        (HitboxShape::Circle, 1248, 1248)
    } else if id == 678 {
        (HitboxShape::Circle, 3040, 3040)
    } else if id == 679 {
        (HitboxShape::Circle, 1854, 1854)
    } else if id == 680 {
        (HitboxShape::Circle, 1080, 1080)
    } else if id == 918 {
        (HitboxShape::Circle, 2400, 2400)
    } else if (1582 <= id && id <= 1583) {
        (HitboxShape::Circle, 400, 400)
    } else if id == 1619 {
        (HitboxShape::Circle, 2500, 2500)
    } else if id == 1620 {
        (HitboxShape::Circle, 1500, 1500)
    } else if (1701 <= id && id <= 1703) {
        (HitboxShape::Circle, 600, 600)
    } else if id == 35 {
        (HitboxShape::Rectangle, 2500, 400)
    } else if id == 140 {
        (HitboxShape::Rectangle, 2500, 500)
    } else if id == 67 {
        (HitboxShape::Rectangle, 2500, 600)
    } else if id == 36 || id == 84 || id == 141 {
        (HitboxShape::Rectangle, 3600, 3600)
    } else if id == 12 || id == 13 || id == 47 || id == 111 || id == 660 {
        (HitboxShape::Rectangle, 3400, 8600)
    } else if id == 10 || id == 11 {
        (HitboxShape::Rectangle, 2500, 7500)
    } else if id == 99 || id == 101 {
        (HitboxShape::Rectangle, 3100, 9000)
    } else if id == 200 {
        (HitboxShape::Rectangle, 3500, 4400)
    } else if id == 201 {
        (HitboxShape::Rectangle, 3300, 5600)
    } else if id == 202 {
        (HitboxShape::Rectangle, 5100, 5600)
    } else if id == 203 {
        (HitboxShape::Rectangle, 6500, 5600)
    } else if id == 1334 {
        (HitboxShape::Rectangle, 6900, 5600)
    } else if id == 289 || id == 294 || id == 299 || id == 305 || id == 309 || id == 315
        || id == 321 || id == 326 || id == 331 || id == 337 || id == 343 || id == 349
        || id == 353 || id == 371 || id == 483 || id == 492 || id == 651 || id == 665
        || id == 673 || id == 709 || id == 711 || id == 726 || id == 728 || id == 886
        || id == 1338 || id == 1341 || id == 1344 || id == 1723 || id == 1743
        || id == 1745 || id == 1747 || id == 1749 || id == 1906
    {
        (HitboxShape::Rectangle, 3000, 3000)
    } else if id == 363 || id == 1717 {
        (HitboxShape::Rectangle, 3000, 3000)
    } else if id == 291 || id == 295 || id == 301 || id == 307 || id == 311 || id == 317
        || id == 323 || id == 327 || id == 333 || id == 339 || id == 345 || id == 351
        || id == 355 || id == 367 || id == 372 || id == 484 || id == 493 || id == 652
        || id == 666 || id == 674 || id == 710 || id == 712 || id == 727 || id == 729
        || id == 887 || id == 1339 || id == 1342 || id == 1345 || id == 1724
        || id == 1744 || id == 1746 || id == 1748 || id == 1750 || id == 1907
    {
        (HitboxShape::Rectangle, 6000, 3000)
    } else if id == 364 || id == 366 || id == 1718 {
        (HitboxShape::Rectangle, 6000, 3000)
    } else {
        (HitboxShape::Rectangle, 3000, 3000)
    }
}

/// Looks up the hitbox of an object id: its shape, then its base width and
/// height in hundredths of a world unit (a 30-unit block is 3000 by 3000).
pub fn get_hitbox_for_id(id: i32) -> (r: (HitboxShape, u32, u32))
    ensures
        r == hitbox_of(id),
{
    if (1 <= id && id <= 4) || (6 <= id && id <= 7) || id == 63
        || (69 <= id && id <= 72) || (74 <= id && id <= 78) || (81 <= id && id <= 83)
        || (90 <= id && id <= 96) || (116 <= id && id <= 119)
        || (121 <= id && id <= 122) || id == 146 || (160 <= id && id <= 163)
        || (165 <= id && id <= 169) || id == 173 || id == 175
        || (207 <= id && id <= 210) || (212 <= id && id <= 213)
        || (247 <= id && id <= 250) || (252 <= id && id <= 258)
        || (260 <= id && id <= 261) || (263 <= id && id <= 265)
        || (267 <= id && id <= 272) || (274 <= id && id <= 275) || id == 467
        || (469 <= id && id <= 471) || (1203 <= id && id <= 1204)
        || (1209 <= id && id <= 1210) || (1221 <= id && id <= 1222) || id == 1226
    {
        (HitboxShape::Rectangle, 3000, 3000)
    } else if id == 64 || id == 195 || id == 206 || id == 220 || id == 661
        || (1155 <= id && id <= 1157) || id == 1208 || id == 1910
    {
        (HitboxShape::Rectangle, 1500, 1500)
    } else if id == 40 || id == 147 || id == 215 || (369 <= id && id <= 370)
        || (1903 <= id && id <= 1905)
    {
        (HitboxShape::Rectangle, 3000, 1400)
    } else if (170 <= id && id <= 172) || id == 174 || id == 192 {
        (HitboxShape::Rectangle, 3000, 2100)
    } else if id == 468 || id == 475 || id == 1260 {
        (HitboxShape::Rectangle, 3000, 150)
    } else if id == 62 || id == 65 || id == 66 || id == 68 {
        (HitboxShape::Rectangle, 3000, 1600)
    } else if id == 1202 || id == 1262 {
        (HitboxShape::Rectangle, 3000, 300)
    } else if id == 1220 || id == 1264 {
        (HitboxShape::Rectangle, 3000, 600)
    } else if id == 196 || id == 219 || id == 1911 {
        (HitboxShape::Rectangle, 1500, 800)
    } else if id == 204 {
        (HitboxShape::Rectangle, 800, 1500)
    } else if (662 <= id && id <= 664) {
        (HitboxShape::Rectangle, 3000, 1500)
    } else if id == 1561 {
        (HitboxShape::Rectangle, 3000, 1000)
    } else if id == 1567 {
        (HitboxShape::Rectangle, 1500, 1000)
    } else if id == 1566 {
        (HitboxShape::Rectangle, 1200, 1200)
    } else if id == 1565 {
        (HitboxShape::Rectangle, 1700, 1700)
    } else if id == 1227 {
        (HitboxShape::Rectangle, 3000, 700)
    } else if id == 328 {
        (HitboxShape::Rectangle, 2200, 2200)
    } else if id == 197 {
        (HitboxShape::Rectangle, 2200, 2100)
    } else if id == 194 {
        (HitboxShape::Rectangle, 2100, 2100)
    } else if id == 176 {
        (HitboxShape::Rectangle, 1400, 2100)
    } else if id == 1562 {
        (HitboxShape::Rectangle, 3000, 200)
    } else if id == 1343 {
        (HitboxShape::Rectangle, 2500, 300)
    } else if id == 1340 {
        (HitboxShape::Rectangle, 2700, 200)
    } else if id == 34 {
        (HitboxShape::Rectangle, 3700, 2300)
    } else if id == 143 {
        (HitboxShape::Rectangle, 3000, 3000)
    } else if id == 8 || id == 144 || id == 177 || id == 216 {
        (HitboxShape::Rectangle, 600, 1200)
    } else if id == 103 || id == 145 || id == 218 {
        (HitboxShape::Rectangle, 400, 760)
    } else if id == 39 || id == 205 || id == 217 {
        (HitboxShape::Rectangle, 600, 560)
    } else if id == 720 || id == 991 || id == 1731 || id == 1733 {
        (HitboxShape::Rectangle, 240, 320)
    } else if id == 61 || id == 446 || id == 1719 || id == 1728 {
        (HitboxShape::Rectangle, 900, 720)
    } else if id == 365 || id == 667 || id == 1716 || id == 1730 {
        (HitboxShape::Rectangle, 900, 600)
    } else if id == 392 || (458 <= id && id <= 459) {
        (HitboxShape::Rectangle, 260, 480)
    } else if id == 768 || id == 1727 {
        (HitboxShape::Rectangle, 450, 520)
    } else if id == 447 || id == 1729 {
        (HitboxShape::Rectangle, 520, 720)
    } else if id == 135 || id == 1711 {
        (HitboxShape::Rectangle, 1410, 2000)
    } else if id == 422 || id == 1726 {
        (HitboxShape::Rectangle, 600, 440)
    } else if id == 244 || id == 1721 {
        (HitboxShape::Rectangle, 600, 680)
    } else if id == 243 || id == 1720 {
        (HitboxShape::Rectangle, 600, 720)
    } else if id == 421 || id == 1725 {
        (HitboxShape::Rectangle, 900, 520)
    } else if id == 9 || id == 1715 {
        (HitboxShape::Rectangle, 900, 1080)
    } else if id == 989 || id == 1732 {
        (HitboxShape::Rectangle, 900, 1200)
    } else if id == 1714 {
        (HitboxShape::Rectangle, 1140, 1640)
    } else if id == 1712 {
        (HitboxShape::Rectangle, 1350, 2240)
    } else if id == 368 || id == 1722 {
        (HitboxShape::Rectangle, 900, 400)
    } else if id == 1713 {
        (HitboxShape::Rectangle, 1170, 2000)
    } else if id == 178 {
        (HitboxShape::Rectangle, 600, 640)
    } else if id == 919 {
        (HitboxShape::Rectangle, 2500, 600)
    } else if id == 179 {
        (HitboxShape::Rectangle, 400, 800)
    } else if id == 88 || id == 186 || id == 740 || id == 1705 {
        (HitboxShape::Circle, 3230, 3230)
    } else if id == 89 || id == 1706 {
        (HitboxShape::Circle, 2160, 2160)
    } else if id == 98 || id == 1707 {
        (HitboxShape::Circle, 1200, 1200)
    } else if id == 183 {
        (HitboxShape::Circle, 1566, 1566)
    } else if id == 184 {
        (HitboxShape::Circle, 2040, 2040)
    } else if id == 185 {
        (HitboxShape::Circle, 285, 285)
    } else if id == 187 || id == 741 {
        (HitboxShape::Circle, 2196, 2196)
    } else if id == 188 || id == 742 {
        (HitboxShape::Circle, 1260, 1260)
    } else if id == 397 || id == 1708 {
        (HitboxShape::Circle, 2890, 2890)
    } else if id == 398 || id == 1709 {
        (HitboxShape::Circle, 1744, 1744)
    } else if id == 399 || id == 1710 {
        (HitboxShape::Circle, 1290, 1290)
    } else if id == 675 || id == 1734 {
        (HitboxShape::Circle, 3200, 3200)
    } else if id == 676 || id == 1735 {
        (HitboxShape::Circle, 1751, 1751)
    } else if id == 677 || id == 1736 {
        (HitboxShape::Circle, 1248, 1248)
    } else if id == 678 {
        (HitboxShape::Circle, 3040, 3040)
    } else if id == 679 {
        (HitboxShape::Circle, 1854, 1854)
    } else if id == 680 {
        (HitboxShape::Circle, 1080, 1080)
    } else if id == 918 {
        (HitboxShape::Circle, 2400, 2400)
    } else if (1582 <= id && id <= 1583) {
        (HitboxShape::Circle, 400, 400)
    } else if id == 1619 {
        (HitboxShape::Circle, 2500, 2500)
    } else if id == 1620 {
        (HitboxShape::Circle, 1500, 1500)
    } else if (1701 <= id && id <= 1703) {
        (HitboxShape::Circle, 600, 600)
    } else if id == 35 {
        (HitboxShape::Rectangle, 2500, 400)
    } else if id == 140 {
        (HitboxShape::Rectangle, 2500, 500)
    } else if id == 67 {
        (HitboxShape::Rectangle, 2500, 600)
    } else if id == 36 || id == 84 || id == 141 {
        (HitboxShape::Rectangle, 3600, 3600)
    } else if id == 12 || id == 13 || id == 47 || id == 111 || id == 660 {
        (HitboxShape::Rectangle, 3400, 8600)
    } else if id == 10 || id == 11 {
        (HitboxShape::Rectangle, 2500, 7500)
    } else if id == 99 || id == 101 {
        (HitboxShape::Rectangle, 3100, 9000)
    } else if id == 200 {
        (HitboxShape::Rectangle, 3500, 4400)
    } else if id == 201 {
        (HitboxShape::Rectangle, 3300, 5600)
    } else if id == 202 {
        (HitboxShape::Rectangle, 5100, 5600)
    } else if id == 203 {
        (HitboxShape::Rectangle, 6500, 5600)
    } else if id == 1334 {
        (HitboxShape::Rectangle, 6900, 5600)
    } else if id == 289 || id == 294 || id == 299 || id == 305 || id == 309 || id == 315
        || id == 321 || id == 326 || id == 331 || id == 337 || id == 343 || id == 349
        || id == 353 || id == 371 || id == 483 || id == 492 || id == 651 || id == 665
        || id == 673 || id == 709 || id == 711 || id == 726 || id == 728 || id == 886
        || id == 1338 || id == 1341 || id == 1344 || id == 1723 || id == 1743
        || id == 1745 || id == 1747 || id == 1749 || id == 1906
    {
        (HitboxShape::Rectangle, 3000, 3000)
    } else if id == 363 || id == 1717 {
        (HitboxShape::Rectangle, 3000, 3000)
    } else if id == 291 || id == 295 || id == 301 || id == 307 || id == 311 || id == 317
        || id == 323 || id == 327 || id == 333 || id == 339 || id == 345 || id == 351
        || id == 355 || id == 367 || id == 372 || id == 484 || id == 493 || id == 652
        || id == 666 || id == 674 || id == 710 || id == 712 || id == 727 || id == 729
        || id == 887 || id == 1339 || id == 1342 || id == 1345 || id == 1724
        || id == 1744 || id == 1746 || id == 1748 || id == 1750 || id == 1907
    {
        (HitboxShape::Rectangle, 6000, 3000)
    } else if id == 364 || id == 366 || id == 1718 {
        (HitboxShape::Rectangle, 6000, 3000)
    } else {
        (HitboxShape::Rectangle, 3000, 3000)
    }
}

/// Looks up the gameplay category of an object id.
pub fn get_object_type_for_id(id: i32) -> (r: GameObjectType)
    ensures
        r == object_type_of(id),
{
    if (1 <= id && id <= 4) || (6 <= id && id <= 7) || id == 63
        || (69 <= id && id <= 72) || (74 <= id && id <= 78) || (81 <= id && id <= 83)
        || (90 <= id && id <= 96) || (116 <= id && id <= 119)
        || (121 <= id && id <= 122) || id == 146 || (160 <= id && id <= 163)
        || (165 <= id && id <= 169) || id == 173 || id == 175
        || (207 <= id && id <= 210) || (212 <= id && id <= 213)
        || (247 <= id && id <= 250) || (252 <= id && id <= 258)
        || (260 <= id && id <= 261) || (263 <= id && id <= 265)
        || (267 <= id && id <= 272) || (274 <= id && id <= 275) || id == 467
        || (469 <= id && id <= 471) || (1203 <= id && id <= 1204)
        || (1209 <= id && id <= 1210) || (1221 <= id && id <= 1222) || id == 1226
    {
        GameObjectType::Solid
    } else if id == 64 || id == 195 || id == 206 || id == 220 || id == 661
        || (1155 <= id && id <= 1157) || id == 1208 || id == 1910
    {
        GameObjectType::Solid
    } else if id == 40 || id == 147 || id == 215 || (369 <= id && id <= 370)
        || (1903 <= id && id <= 1905)
    {
        GameObjectType::Solid
    } else if (170 <= id && id <= 172) || id == 174 || id == 192 {
        GameObjectType::Solid
    } else if id == 468 || id == 475 || id == 1260 {
        GameObjectType::Solid
    } else if id == 62 || id == 65 || id == 66 || id == 68 {
        GameObjectType::Solid
    } else if id == 1202 || id == 1262 {
        GameObjectType::Solid
    } else if id == 1220 || id == 1264 {
        GameObjectType::Solid
    } else if id == 196 || id == 219 || id == 1911 {
        GameObjectType::Solid
    } else if id == 204 {
        GameObjectType::Solid
    } else if (662 <= id && id <= 664) {
        GameObjectType::Solid
    } else if id == 1561 || id == 1567 || id == 1566 || id == 1565 || id == 1227 || id == 328
        || id == 197 || id == 194 || id == 176 || id == 1562 || id == 1343 || id == 1340
        || id == 34
    {
        GameObjectType::Solid
    } else if id == 143 {
        GameObjectType::Breakable
    } else if id == 8 || id == 144 || id == 177 || id == 216 || id == 103 || id == 145
        || id == 218 || id == 39 || id == 205 || id == 217 || id == 720 || id == 991
        || id == 1731 || id == 1733 || id == 61 || id == 446 || id == 1719 || id == 1728
        || id == 365 || id == 667 || id == 1716 || id == 1730 || id == 392
        || (458 <= id && id <= 459) || id == 768 || id == 1727 || id == 447
        || id == 1729 || id == 135 || id == 1711 || id == 422 || id == 1726 || id == 244
        || id == 1721 || id == 243 || id == 1720 || id == 421 || id == 1725 || id == 9
        || id == 1715 || id == 989 || id == 1732 || id == 1714 || id == 1712
        || id == 368 || id == 1722 || id == 1713 || id == 178 || id == 919 || id == 179
    {
        GameObjectType::Hazard
    } else if id == 363 || id == 1717 || id == 364 || id == 366 || id == 1718 {
        GameObjectType::Hazard
    } else if id == 88 || id == 186 || id == 740 || id == 1705 || id == 89 || id == 1706
        || id == 98 || id == 1707 || id == 183 || id == 184 || id == 185 || id == 187
        || id == 741 || id == 188 || id == 742 || id == 397 || id == 1708 || id == 398
        || id == 1709 || id == 399 || id == 1710 || id == 675 || id == 1734 || id == 676
        || id == 1735 || id == 677 || id == 1736 || id == 678 || id == 679 || id == 680
        || id == 918 || (1582 <= id && id <= 1583) || id == 1619 || id == 1620
        || (1701 <= id && id <= 1703)
    {
        GameObjectType::Sawblade
    } else if id == 11 {
        GameObjectType::InverseGravityPortal
    } else if id == 10 {
        GameObjectType::NormalGravityPortal
    } else if id == 13 {
        GameObjectType::ShipPortal
    } else if id == 12 {
        GameObjectType::CubePortal
    } else if id == 47 {
        GameObjectType::BallPortal
    } else if id == 111 {
        GameObjectType::UfoPortal
    } else if id == 660 {
        GameObjectType::WavePortal
    } else if id == 99 {
        GameObjectType::MiniSizePortal
    } else if id == 101 {
        GameObjectType::RegularSizePortal
    } else if (200 <= id && id <= 203) || id == 1334 {
        GameObjectType::Special
    } else if id == 289 || id == 294 || id == 299 || id == 305 || id == 309 || id == 315
        || id == 321 || id == 326 || id == 331 || id == 337 || id == 343 || id == 349
        || id == 353 || id == 371 || id == 483 || id == 492 || id == 651 || id == 665
        || id == 673 || id == 709 || id == 711 || id == 726 || id == 728 || id == 886
        || id == 1338 || id == 1341 || id == 1344 || id == 1723 || id == 1743
        || id == 1745 || id == 1747 || id == 1749 || id == 1906 || id == 291
        || id == 295 || id == 301 || id == 307 || id == 311 || id == 317 || id == 323
        || id == 327 || id == 333 || id == 339 || id == 345 || id == 351 || id == 355
        || id == 367 || id == 372 || id == 484 || id == 493 || id == 652 || id == 666
        || id == 674 || id == 710 || id == 712 || id == 727 || id == 729 || id == 887
        || id == 1339 || id == 1342 || id == 1345 || id == 1724 || id == 1744
        || id == 1746 || id == 1748 || id == 1750 || id == 1907
    {
        GameObjectType::Slope
    } else if id == 35 {
        GameObjectType::YellowJumpPad
    } else if id == 140 {
        GameObjectType::PinkJumpPad
    } else if id == 67 {
        GameObjectType::GravityPad
    } else if id == 36 {
        GameObjectType::YellowJumpRing
    } else if id == 84 {
        GameObjectType::PinkJumpRing
    } else if id == 141 {
        GameObjectType::GravityRing
    } else {
        GameObjectType::Unknown
    }
}

/// What touching an object of a category means for the player.
#[derive(Debug, Clone, Copy, PartialEq, Eq, Structural)]
pub enum Contact {
    /// Any overlap kills.
    Fatal,
    /// Standing on the surface is safe; other overlap kills.
    Surface,
    /// Overlap has no effect on survival.
    Ignored,
}

pub open spec fn contact_spec(kind: GameObjectType) -> Contact {
    match kind {
        GameObjectType::Hazard | GameObjectType::Sawblade => Contact::Fatal,
        GameObjectType::Solid => Contact::Surface,
        _ => Contact::Ignored,
    }
}

/// How the hazard test treats an overlapped object of category `kind`:
/// spikes and sawblades kill, solids kill unless touched from their
/// surface, everything else is ignored (slopes included).
pub fn contact_of(kind: GameObjectType) -> (c: Contact)
    ensures
        c == contact_spec(kind),
{
    match kind {
        GameObjectType::Hazard | GameObjectType::Sawblade => Contact::Fatal,
        GameObjectType::Solid => Contact::Surface,
        _ => Contact::Ignored,
    }
}

/// What happens to the ship corridor when a portal is touched.
#[derive(Debug, Clone, Copy, PartialEq, Eq, Structural)]
pub enum Bounds {
    /// Floor and ceiling stay as they are.
    Keep,
    /// A new ship corridor is set around the portal.
    Ship,
    /// Floor 0 and no ceiling.
    Unbounded,
}

/// The discrete part of a state that portals change.
#[derive(Debug, Clone, Copy, PartialEq, Eq, Structural)]
pub struct PortalState {
    pub mode: GameMode,
    pub gravity_flipped: bool,
    pub on_ground: bool,
}

pub open spec fn portal_spec(kind: GameObjectType, s: PortalState) -> (PortalState, Bounds) {
    match kind {
        GameObjectType::ShipPortal => (
            PortalState { mode: GameMode::Ship, gravity_flipped: s.gravity_flipped, on_ground: false },
            Bounds::Ship,
        ),
        GameObjectType::CubePortal => (PortalState { mode: GameMode::Cube, ..s }, Bounds::Unbounded),
        GameObjectType::InverseGravityPortal => (
            PortalState { gravity_flipped: true, ..s },
            Bounds::Keep,
        ),
        GameObjectType::NormalGravityPortal => (
            PortalState { gravity_flipped: false, ..s },
            Bounds::Keep,
        ),
        _ => (s, Bounds::Keep),
    }
}

/// The effect of touching an object of category `kind`: a ship portal
/// switches to Ship mode off the ground with a new corridor, a cube portal
/// to Cube mode without bounds, gravity portals set the orientation; other
/// objects change nothing.
pub fn portal_effect(kind: GameObjectType, s: PortalState) -> (r: (PortalState, Bounds))
    ensures
        r == portal_spec(kind, s),
{
    match kind {
        GameObjectType::ShipPortal => (
            PortalState { mode: GameMode::Ship, gravity_flipped: s.gravity_flipped, on_ground: false },
            Bounds::Ship,
        ),
        GameObjectType::CubePortal => (
            PortalState { mode: GameMode::Cube, gravity_flipped: s.gravity_flipped, on_ground: s.on_ground },
            Bounds::Unbounded,
        ),
        GameObjectType::InverseGravityPortal => (
            PortalState { mode: s.mode, gravity_flipped: true, on_ground: s.on_ground },
            Bounds::Keep,
        ),
        GameObjectType::NormalGravityPortal => (
            PortalState { mode: s.mode, gravity_flipped: false, on_ground: s.on_ground },
            Bounds::Keep,
        ),
        _ => (s, Bounds::Keep),
    }
}

/// Gravity portals are idempotent: touching one twice is touching it once.
pub proof fn lemma_gravity_portals_idempotent(kind: GameObjectType, s: PortalState)
    requires
        kind == GameObjectType::InverseGravityPortal || kind == GameObjectType::NormalGravityPortal,
    ensures
        portal_spec(kind, portal_spec(kind, s).0) == portal_spec(kind, s),
{
}

} // verus!
