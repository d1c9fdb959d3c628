//! The packets of the remote console protocol, as bytes. Every packet
//! starts with a marker of four bytes; an administrative command carries
//! the shared password before its payload.

use vstd::prelude::*;

verus! {

/// The marker that every packet starts with.
pub open spec fn header() -> Seq<u8> {
    seq![0xffu8, 0xffu8, 0xffu8, 0xffu8]
}

/// `rcon `
pub open spec fn rcon_word() -> Seq<u8> {
    seq![0x72u8, 0x63u8, 0x6fu8, 0x6eu8, 0x20u8]
}

/// `svsay `
pub open spec fn svsay_word() -> Seq<u8> {
    seq![0x73u8, 0x76u8, 0x73u8, 0x61u8, 0x79u8, 0x20u8]
}

/// `svtell `
pub open spec fn svtell_word() -> Seq<u8> {
    seq![0x73u8, 0x76u8, 0x74u8, 0x65u8, 0x6cu8, 0x6cu8, 0x20u8]
}

/// `map `
pub open spec fn map_word() -> Seq<u8> {
    seq![0x6du8, 0x61u8, 0x70u8, 0x20u8]
}

/// `mbmode `
pub open spec fn mbmode_word() -> Seq<u8> {
    seq![0x6du8, 0x62u8, 0x6du8, 0x6fu8, 0x64u8, 0x65u8, 0x20u8]
}

/// A single blank.
pub open spec fn blank() -> Seq<u8> {
    seq![0x20u8]
}

/// Appends `bytes` to `packet`.
fn append(packet: &mut Vec<u8>, bytes: &[u8])
    ensures
        final(packet)@ == old(packet)@ + bytes@,
{
    let mut i: usize = 0;
    while i < bytes.len()
        invariant
            0 <= i <= bytes.len(),
            packet@ == old(packet)@ + bytes@.subrange(0, i as int),
        decreases bytes.len() - i,
    {
        packet.push(bytes[i]);
        assert(packet@ =~= old(packet)@ + bytes@.subrange(0, i + 1));
        i += 1;
    }
    assert(bytes@.subrange(0, i as int) =~= bytes@);
}

/// The packet that carries `payload`: the marker, then the payload.
pub fn frame(payload: &[u8]) -> (packet: Vec<u8>)
    ensures
        packet@ == header() + payload@,
{
    let mut packet: Vec<u8> = Vec::new();
    packet.push(0xff);
    packet.push(0xff);
    packet.push(0xff);
    packet.push(0xff);
    assert(packet@ =~= header());
    append(&mut packet, payload);
    packet
}

/// The payload of an administrative command: `rcon`, the password, a blank
/// and the command.
pub fn rcon_payload(password: &[u8], command: &[u8]) -> (payload: Vec<u8>)
    ensures
        payload@ == rcon_word() + password@ + blank() + command@,
{
    let mut payload: Vec<u8> = Vec::new();
    payload.push(0x72);
    payload.push(0x63);
    payload.push(0x6f);
    payload.push(0x6e);
    payload.push(0x20);
    assert(payload@ =~= rcon_word());
    append(&mut payload, password);
    payload.push(0x20);
    assert(payload@ =~= rcon_word() + password@ + blank());
    append(&mut payload, command);
    payload
}

/// The command that says `text` to every player.
pub fn svsay_command(text: &[u8]) -> (command: Vec<u8>)
    ensures
        command@ == svsay_word() + text@,
{
    let mut command: Vec<u8> = Vec::new();
    command.push(0x73);
    command.push(0x76);
    command.push(0x73);
    command.push(0x61);
    command.push(0x79);
    command.push(0x20);
    assert(command@ =~= svsay_word());
    append(&mut command, text);
    command
}

/// The command that says `text` to the player `id` alone.
pub fn svtell_command(id: &[u8], text: &[u8]) -> (command: Vec<u8>)
    ensures
        command@ == svtell_word() + id@ + blank() + text@,
{
    let mut command: Vec<u8> = Vec::new();
    command.push(0x73);
    command.push(0x76);
    command.push(0x74);
    command.push(0x65);
    command.push(0x6c);
    command.push(0x6c);
    command.push(0x20);
    assert(command@ =~= svtell_word());
    append(&mut command, id);
    command.push(0x20);
    assert(command@ =~= svtell_word() + id@ + blank());
    append(&mut command, text);
    command
}

/// The command that changes the map.
pub fn map_command(map: &[u8]) -> (command: Vec<u8>)
    ensures
        command@ == map_word() + map@,
{
    let mut command: Vec<u8> = Vec::new();
    command.push(0x6d);
    command.push(0x61);
    command.push(0x70);
    command.push(0x20);
    assert(command@ =~= map_word());
    append(&mut command, map);
    command
}

/// The command that changes the game mode.
pub fn mbmode_command(mode: &[u8]) -> (command: Vec<u8>)
    ensures
        command@ == mbmode_word() + mode@,
{
    let mut command: Vec<u8> = Vec::new();
    command.push(0x6d);
    command.push(0x62);
    command.push(0x6d);
    command.push(0x6f);
    command.push(0x64);
    command.push(0x65);
    command.push(0x20);
    assert(command@ =~= mbmode_word());
    append(&mut command, mode);
    command
}

/// The command that carries out an accepted proposal: a change of map for
/// the category `map`, a change of mode for the category `mode`, and none
/// for any other category.
pub fn change_command(category: &String, value: &[u8]) -> (command: Option<Vec<u8>>)
    ensures
        command is Some <==> category@ == "map"@ || category@ == "mode"@,
        category@ == "map"@ ==> command is Some && command->Some_0@ == map_word() + value@,
        category@ != "map"@ && category@ == "mode"@ ==> command is Some && command->Some_0@
            == mbmode_word() + value@,
{
    let map: String = "map".to_owned();
    let mode: String = "mode".to_owned();
    if *category == map {
        Some(map_command(value))
    } else if *category == mode {
        Some(mbmode_command(value))
    } else {
        None
    }
}

/// The packet of an administrative command: the marker, then the command
/// behind the password.
pub fn rcon_packet(password: &[u8], command: &[u8]) -> (packet: Vec<u8>)
    ensures
        packet@ == header() + (rcon_word() + password@ + blank() + command@),
{
    let payload = rcon_payload(password, command);
    frame(payload.as_slice())
}

} // verus!
