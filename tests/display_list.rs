use helix::gbi::{GBIResult, GfxOp, GBI};
use helix::output::GfxCommand;
use helix::rcp::{RcpError, MAX_DL_DEPTH, RCP};
use helix::rdp::{RdpError, Rect};
use helix::rsp::RspError;

fn push_cmd(mem: &mut Vec<u8>, w0: u32, w1: u32) {
    mem.extend_from_slice(&w0.to_be_bytes());
    mem.extend_from_slice(&w1.to_be_bytes());
}

fn end() -> (u32, u32) {
    (0xdf00_0000, 0)
}

fn call(target: u32) -> (u32, u32) {
    (0xde00_0000, target)
}

fn marker(opcode: u8) -> (u32, u32) {
    ((opcode as u32) << 24, 0)
}

fn tri(a: u8, b: u8, c: u8) -> (u32, u32) {
    (0x0500_0000 | (a as u32) << 16 | (b as u32) << 8 | c as u32, 0)
}

fn write_list(mem: &mut Vec<u8>, at: usize, cmds: &[(u32, u32)]) {
    if mem.len() < at + cmds.len() * 8 {
        mem.resize(at + cmds.len() * 8, 0);
    }
    let mut list = Vec::new();
    for (w0, w1) in cmds {
        push_cmd(&mut list, *w0, *w1);
    }
    mem[at..at + list.len()].copy_from_slice(&list);
}

#[test]
fn flat_list_ends_at_terminator() {
    let mut mem = Vec::new();
    write_list(&mut mem, 0, &[(0, 0), (0, 0), marker(0x10), end(), (0, 0)]);
    let mut rcp = RCP::new();
    assert_eq!(rcp.run(&mem, 0), Ok(24));
}

#[test]
fn nested_calls_resume_after_call_site() {
    let mut mem = Vec::new();
    write_list(&mut mem, 0, &[marker(0x10), call(0x100), marker(0x11), end()]);
    write_list(&mut mem, 0x100, &[marker(0x20), call(0x200), marker(0x21), end()]);
    write_list(&mut mem, 0x200, &[marker(0x30), end()]);
    let mut rcp = RCP::new();
    assert_eq!(rcp.run(&mem, 0), Ok(24));
    let seen: Vec<RdpError> = rcp.rdp.errors.clone();
    assert_eq!(
        seen,
        vec![
            RdpError::UnknownOpcode(0x10),
            RdpError::UnknownOpcode(0x20),
            RdpError::UnknownOpcode(0x30),
            RdpError::UnknownOpcode(0x21),
            RdpError::UnknownOpcode(0x11),
        ]
    );
}

#[test]
fn unknown_opcode_is_skipped() {
    let mut mem = Vec::new();
    write_list(&mut mem, 0, &[marker(0x42), end()]);
    let mut rcp = RCP::new();
    assert_eq!(rcp.run(&mem, 0), Ok(8));
    assert_eq!(rcp.rdp.errors, vec![RdpError::UnknownOpcode(0x42)]);
}

#[test]
fn list_without_terminator_is_out_of_bounds() {
    let mut mem = Vec::new();
    write_list(&mut mem, 0, &[(0, 0), (0, 0)]);
    let mut rcp = RCP::new();
    assert_eq!(rcp.run(&mem, 0), Err(RcpError::OutOfBounds(16)));
}

#[test]
fn self_call_is_too_deep() {
    let mut mem = Vec::new();
    write_list(&mut mem, 0, &[call(0), end()]);
    let mut rcp = RCP::new();
    assert_eq!(rcp.run(&mem, 0), Err(RcpError::TooDeep(0)));
    assert!(MAX_DL_DEPTH > 2);
}

#[test]
fn dispatch_results() {
    let mut gbi = GBI::new();
    gbi.setup();
    let mut mem = Vec::new();
    write_list(&mut mem, 0, &[end(), call(0x40), (0, 0), marker(0x99)]);
    let mut rcp = RCP::new();
    assert_eq!(gbi.handle_command(&mut rcp.rdp, &mut rcp.rsp, &mem, 0), GBIResult::Return);
    assert_eq!(gbi.handle_command(&mut rcp.rdp, &mut rcp.rsp, &mem, 8), GBIResult::Recurse(0x40));
    assert_eq!(gbi.handle_command(&mut rcp.rdp, &mut rcp.rsp, &mem, 16), GBIResult::Continue);
    assert_eq!(gbi.handle_command(&mut rcp.rdp, &mut rcp.rsp, &mem, 24), GBIResult::Unknown(0x99));
    gbi.register(0x99, GfxOp::EndDisplayList);
    assert_eq!(gbi.handle_command(&mut rcp.rdp, &mut rcp.rsp, &mem, 24), GBIResult::Return);
}

#[test]
fn end_to_end_two_batches_with_viewport_between() {
    let mut mem = Vec::new();
    // viewport record at 0x200: scale (640, 480), translation (640, 480)
    let vp: [i16; 8] = [640, 480, 511, 0, 640, 480, 511, 0];
    mem.resize(0x210, 0);
    for (i, v) in vp.iter().enumerate() {
        mem[0x200 + 2 * i..0x200 + 2 * i + 2].copy_from_slice(&v.to_be_bytes());
    }
    write_list(
        &mut mem,
        0,
        &[(0xfc00_0000, 0x0000_0021), tri(0, 1, 2), (0xdc00_0000, 0x200), tri(3, 4, 5), end()],
    );
    let mut rcp = RCP::new();
    assert_eq!(rcp.run(&mem, 0), Ok(32));
    let cmds = rcp.rdp.output.commands.clone();
    let draws: Vec<(usize, GfxCommand)> = cmds
        .iter()
        .cloned()
        .enumerate()
        .filter(|(_, c)| matches!(c, GfxCommand::DrawTriangles { .. }))
        .collect();
    assert_eq!(draws.len(), 2);
    assert_eq!(draws[0].1, GfxCommand::DrawTriangles { batch: 0, triangle_count: 1 });
    assert_eq!(draws[1].1, GfxCommand::DrawTriangles { batch: 1, triangle_count: 1 });
    let vp_pos = cmds
        .iter()
        .position(|c| *c == GfxCommand::SetViewport(Rect::new(0, 0, 320, 240)))
        .expect("viewport change submitted");
    assert!(draws[0].0 < vp_pos && vp_pos < draws[1].0);
    assert_eq!(rcp.rdp.output.vertex_batches.len(), 2);
    assert_eq!(rcp.rdp.output.vertex_batches[0].len(), 3);
}

#[test]
fn out_of_range_vertex_id_is_reported() {
    let mut mem = Vec::new();
    write_list(&mut mem, 0, &[tri(0, 1, 200), end()]);
    let mut rcp = RCP::new();
    assert_eq!(rcp.run(&mem, 0), Ok(8));
    assert_eq!(rcp.rdp.errors, vec![RdpError::Geometry(RspError::VertexIndexOutOfRange(200))]);
    assert!(rcp.rdp.output.commands.is_empty());
}

#[test]
fn vertex_load_fills_staging_table() {
    let mut mem = Vec::new();
    // two vertex records at 0x100
    mem.resize(0x120, 0);
    let rec: [u8; 16] = [0, 1, 0, 2, 0, 3, 0, 0, 0, 4, 0, 5, 10, 20, 30, 40];
    mem[0x100..0x110].copy_from_slice(&rec);
    mem[0x110..0x120].copy_from_slice(&rec);
    mem[0x110] = 0xff;
    mem[0x111] = 0xff;
    // load 2 vertices ending at entry 6 (entries 4 and 5)
    write_list(&mut mem, 0, &[(0x0100_0000 | 2 << 12 | 6 << 1, 0x100), end()]);
    let mut rcp = RCP::new();
    assert_eq!(rcp.run(&mem, 0), Ok(8));
    let v4 = rcp.rsp.vertex_table[4];
    assert_eq!((v4.x, v4.y, v4.z, v4.s, v4.t), (1, 2, 3, 4, 5));
    assert_eq!((v4.r, v4.g, v4.b, v4.a), (10, 20, 30, 40));
    assert_eq!(rcp.rsp.vertex_table[5].x, -1);
}

#[test]
fn vertex_load_past_table_is_reported() {
    let mut mem = Vec::new();
    write_list(&mut mem, 0, &[(0x0100_0000 | 10 << 12 | 70 << 1, 0), end()]);
    let mut rcp = RCP::new();
    assert_eq!(rcp.run(&mem, 0), Ok(8));
    assert_eq!(
        rcp.rdp.errors,
        vec![RdpError::Geometry(RspError::VertexRangeOutOfTable { dest: 60, count: 10 })]
    );
}

#[test]
fn vertex_load_past_memory_is_reported() {
    let mut mem = Vec::new();
    write_list(&mut mem, 0, &[(0x0100_0000 | 4 << 12 | 4 << 1, 0x1000), end()]);
    let mut rcp = RCP::new();
    assert_eq!(rcp.run(&mem, 0), Ok(8));
    assert_eq!(rcp.rdp.errors, vec![RdpError::Geometry(RspError::VertexDataOutOfBounds(0x1000))]);
}

#[test]
fn viewport_record_past_memory_is_reported() {
    let mut mem = Vec::new();
    write_list(&mut mem, 0, &[(0xdc00_0000, 0x1000), end()]);
    let mut rcp = RCP::new();
    assert_eq!(rcp.run(&mem, 0), Ok(8));
    assert_eq!(rcp.rdp.errors, vec![RdpError::ArgumentsOutOfBounds { address: 0x1000 }]);
}

#[test]
fn unknown_opcode_limit_escalates() {
    let mut mem = Vec::new();
    write_list(&mut mem, 0, &[marker(0x10), call(0x100), end()]);
    write_list(&mut mem, 0x100, &[marker(0x11), end()]);
    let mut rcp = RCP::new();
    rcp.set_unknown_opcode_limit(Some(1));
    assert_eq!(rcp.run(&mem, 0), Err(RcpError::TooManyUnknownOpcodes(0x100)));
    rcp.set_unknown_opcode_limit(Some(2));
    assert_eq!(rcp.run(&mem, 0), Ok(16));
    rcp.set_unknown_opcode_limit(None);
    assert_eq!(rcp.run(&mem, 0), Ok(16));
}

#[test]
fn viewport_scales_to_output() {
    let mut rcp = RCP::new();
    rcp.rdp.set_output_dimensions(640, 480);
    rcp.rdp.calculate_and_set_viewport(helix::rdp::Viewport { vscale: [640, 480, 511, 0], vtrans: [800, 600, 511, 0] });
    assert_eq!(rcp.rdp.viewport, Rect::new(80, 60, 640, 480));
    assert!(rcp.rdp.viewport_or_scissor_changed);
    rcp.rdp.set_scissor(0, 0, 1280, 960);
    assert_eq!(rcp.rdp.scissor, Rect::new(0, 0, 640, 480));
}
