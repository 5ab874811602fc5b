use replicode::{
    set_opcode_names, Atom, Code, CodeArena, CodeError, CodeTrace, LocalObject, OpcodeNames,
    TraceContext,
};
use replicode::trace::{trace_label, trace_shape, TraceShape};
use std::collections::HashMap;

fn number_text(a: Atom) -> String {
    format!("{:.6e}", f32::from_bits(a.asFloatBits()))
}

fn numbers_of(object: &LocalObject) -> Vec<String> {
    (0..object.code_size()).map(|i| number_text(object.code(i).unwrap())).collect()
}

fn object_with(code: &[Atom]) -> LocalObject {
    let mut object = LocalObject::default();
    for (i, a) in code.iter().enumerate() {
        object.set_code(i as u16, *a);
    }
    object
}

#[test]
fn object_header_with_two_members() {
    let object = object_with(&[Atom::Object(7, 2), Atom::Nil(), Atom::Boolean(true)]);
    let arena = CodeArena::new();
    let names = OpcodeNames::new();
    let text = object.trace_string(&arena, &names, &numbers_of(&object)).unwrap();
    assert_eq!(text, "--------\n0\tobj: 7 (unknown) 2\n1\t   nil\n2\t   bl: true\nOID: 0\n");
}

#[test]
fn registry_is_written_once() {
    let mut names = OpcodeNames::new();
    let mut first = HashMap::new();
    first.insert(7u16, String::from("add"));
    assert!(set_opcode_names(&mut names, &first));
    let mut context = TraceContext::default();
    let mut out = String::new();
    Atom::Object(7, 2).trace(&mut context, &names, "", &mut out);
    assert_eq!(out, "obj: 7 (add) 2");
    let mut second = HashMap::new();
    second.insert(7u16, String::from("sub"));
    assert!(!set_opcode_names(&mut names, &second));
    let mut out = String::new();
    Atom::Operator(7, 0).trace(&mut context, &names, "", &mut out);
    assert_eq!(out, "   op: 7 (add) 0");
}

#[test]
fn code_that_ends_early_is_malformed() {
    let object = object_with(&[Atom::Object(7, 2), Atom::Nil()]);
    let arena = CodeArena::new();
    let names = OpcodeNames::new();
    assert_eq!(
        object.trace_string(&arena, &names, &numbers_of(&object)),
        Err(CodeError::MalformedSequence)
    );
}

fn trace_of(code: &[Atom]) -> String {
    let object = object_with(code);
    object.trace_string(&CodeArena::new(), &OpcodeNames::new(), &numbers_of(&object)).unwrap()
}

fn lines_of(code: &[Atom]) -> Vec<String> {
    let text = trace_of(code);
    let mut lines: Vec<String> = text.split('\n').map(String::from).collect();
    assert_eq!(lines.remove(0), "--------");
    assert_eq!(lines.pop().unwrap(), "");
    assert_eq!(lines.pop().unwrap(), "OID: 0");
    lines
}

fn one(a: Atom) -> String {
    let mut context = TraceContext::default();
    let mut out = String::new();
    a.trace(&mut context, &OpcodeNames::new(), &number_text(a), &mut out);
    out
}

fn names_with(entries: &[(u16, &str)]) -> OpcodeNames {
    let mut table = HashMap::new();
    for (opcode, name) in entries {
        table.insert(*opcode, String::from(*name));
    }
    let mut names = OpcodeNames::new();
    assert!(set_opcode_names(&mut names, &table));
    names
}

#[test]
fn context_starts_with_nothing_pending() {
    let context = TraceContext::default();
    assert_eq!(context.members_to_go_, 0);
    assert_eq!(context.timestamp_data_, 0);
    assert_eq!(context.string_data_, 0);
    assert_eq!(context.char_count_, 0);
    assert_eq!(context.timestamp_high_, 0);
}

#[test]
fn indents_are_counted_off() {
    let mut context = TraceContext::default();
    let mut out = String::new();
    context.write_indents(&mut out);
    assert_eq!(out, "");
    assert_eq!(context, TraceContext::default());
    context.members_to_go_ = 2;
    context.write_indents(&mut out);
    assert_eq!(out, "   ");
    assert_eq!(context.members_to_go_, 1);
    context.write_indents(&mut out);
    assert_eq!(out, "      ");
    assert_eq!(context.members_to_go_, 0);
    context.write_indents(&mut out);
    assert_eq!(out, "      ");
}

#[test]
fn words() {
    assert_eq!(one(Atom::Nil()), "nil");
    assert_eq!(one(Atom::Wildcard()), ":");
    assert_eq!(one(Atom::Wildcard_opcode(5)), ":");
    assert_eq!(one(Atom::TailWildcard()), "::");
    assert_eq!(one(Atom::This()), "this");
    assert_eq!(one(Atom::View()), "view");
    assert_eq!(one(Atom::Mks()), "mks");
    assert_eq!(one(Atom::Vws()), "vws");
    assert_eq!(one(Atom::Boolean(true)), "bl: true");
    assert_eq!(one(Atom::Boolean(false)), "bl: false");
    assert_eq!(one(Atom::UndefinedBoolean()), "bl: true");
    assert_eq!(one(Atom::NullProgram(true)), "null pgm all inputs");
    assert_eq!(one(Atom::NullProgram(false)), "null pgm new inputs");
}

#[test]
fn pointers_with_their_fields() {
    assert_eq!(one(Atom::IPointer(12)), "iptr: 12");
    assert_eq!(one(Atom::VLPointer(0)), "vlptr: 0");
    assert_eq!(one(Atom::IPGMPointer(4095)), "ipgm_ptr: 4095");
    assert_eq!(one(Atom::IPGMPointer(4096)), "ipgm_ptr: 0");
    assert_eq!(one(Atom::InObjPointer(3, 77)), "in_obj_ptr: 3 77");
    assert_eq!(one(Atom::DInObjPointer(255, 1)), "d_in_obj_ptr: 255 1");
    assert_eq!(one(Atom::OutObjPointer(8)), "out_obj_ptr: 8");
    assert_eq!(one(Atom::ValuePointer(9)), "value_ptr: 9");
    assert_eq!(one(Atom::ProductionPointer(10)), "prod_ptr: 10");
    assert_eq!(one(Atom::AssignmentPointer(6, 11)), "ipgm_ptr: 11");
    assert_eq!(one(Atom::new(0x8D060011)), "assign_ptr: 6 17");
    assert_eq!(one(Atom::CodeVLPointer(13)), "code_vlptr: 13");
    assert_eq!(one(Atom::CodeVLPointer_cast_opcode(13, 7)), "code_vlptr: 13");
}

#[test]
fn nodes_devices_and_functions() {
    assert_eq!(one(Atom::Node(5)), "nid: 0");
    assert_eq!(one(Atom::new(0xA0050000)), "nid: 5");
    assert_eq!(one(Atom::UndefinedNode()), "nid: 255");
    assert_eq!(one(Atom::Device(1, 2, 3)), "did: 1 2 3");
    assert_eq!(one(Atom::UndefinedDevice()), "did: 255 255 255");
    assert_eq!(one(Atom::DeviceFunction(77)), "fid: 77 (unknown)");
    let names = names_with(&[(77, "grab")]);
    let mut out = String::new();
    Atom::DeviceFunction(77).trace(&mut TraceContext::default(), &names, "", &mut out);
    assert_eq!(out, "fid: 77 (grab)");
}

#[test]
fn headers_with_opcode_name_and_count() {
    let names = names_with(&[(7, "add"), (8, ""), (4095, "last"), (9, "größer")]);
    let header = |a: Atom| {
        let mut context = TraceContext::default();
        let mut out = String::new();
        a.trace(&mut context, &names, "", &mut out);
        assert_eq!(context.members_to_go_, a.getAtomCount());
        assert_eq!(context.string_data_, 0);
        assert_eq!(context.timestamp_data_, 0);
        out
    };
    assert_eq!(header(Atom::Object(7, 2)), "obj: 7 (add) 2");
    assert_eq!(header(Atom::SSet(8, 0)), "s_set: 8 () 0");
    assert_eq!(header(Atom::Marker(4095, 255)), "mk: 4095 (last) 255");
    assert_eq!(header(Atom::Operator(9, 1)), "op: 9 (größer) 1");
    assert_eq!(header(Atom::Group(10, 3)), "grp: 10 (unknown) 3");
    assert_eq!(header(Atom::InstantiatedProgram(7, 4)), "ipgm: 7 (add) 4");
    assert_eq!(header(Atom::InstantiatedAntiProgram(7, 5)), "ipgm: 7 (add) 5");
    assert_eq!(header(Atom::InstantiatedInputLessProgram(7, 6)), "ipgm: 7 (add) 6");
    assert_eq!(header(Atom::CompositeState(7, 7)), "cst: 7 (add) 7");
    assert_eq!(header(Atom::Model(7, 8)), "mdl: 7 (add) 8");
    assert_eq!(header(Atom::Set_(9)), "set: 9");
    assert_eq!(header(Atom::CPointer(10)), "cptr: 10");
}

#[test]
fn a_native_program_header_is_a_header_like_the_other_programs() {
    let names = names_with(&[(7, "add")]);
    let mut context = TraceContext::default();
    let mut out = String::new();
    Atom::InstantiatedCPPProgram(7, 3).trace(&mut context, &names, "", &mut out);
    assert_eq!(out, "ipgm: 7 (add) 3");
    assert_eq!(context, TraceContext { members_to_go_: 3, ..TraceContext::default() });
    let mut out = String::new();
    Atom::InstantiatedCPPProgram(0xFFFF, 0).trace(&mut context, &OpcodeNames::new(), "", &mut out);
    assert_eq!(out, "   ipgm: 4095 (unknown) 0");
    assert_eq!(context, TraceContext::default());
    let lines = lines_of(&[Atom::InstantiatedCPPProgram(9, 2), Atom::Nil(), Atom::This(), Atom::View()]);
    assert_eq!(lines, vec!["0\tipgm: 9 (unknown) 2", "1\t   nil", "2\t   this", "3\tview"]);
    let object = object_with(&[Atom::InstantiatedCPPProgram(9, 2), Atom::Nil()]);
    assert_eq!(
        object.trace_string(&CodeArena::new(), &OpcodeNames::new(), &numbers_of(&object)),
        Err(CodeError::MalformedSequence)
    );
}

#[test]
fn numbers_and_undefined_cells() {
    assert_eq!(one(Atom::FloatBits(1.0f32.to_bits())), "nb: 1.000000e0");
    assert_eq!(one(Atom::FloatBits(0f32.to_bits())), "nb: 0.000000e0");
    assert_eq!(one(Atom::FloatBits((-2.5f32).to_bits())), "nb: -2.500000e0");
    assert_eq!(one(Atom::FloatBits(1234.5f32.to_bits())), "nb: 1.234500e3");
    assert_eq!(one(Atom::PlusInfinity()), "nb: inf");
    assert_eq!(one(Atom::MinusInfinity()), "nb: -inf");
    assert_eq!(one(Atom::default()), "undef");
    assert_eq!(one(Atom::new(0x8F000000)), "undef");
    assert_eq!(one(Atom::new(0xB0000000)), "undef");
    assert_eq!(one(Atom::new(0xD0000001)), "undef");
    let mut out = String::new();
    Atom::new(0).trace(&mut TraceContext::default(), &OpcodeNames::new(), "<n>", &mut out);
    assert_eq!(out, "nb: <n>");
    let mut out = String::from("x");
    Atom::Nil().trace(&mut TraceContext::default(), &OpcodeNames::new(), "<n>", &mut out);
    assert_eq!(out, "xnil");
}

#[test]
fn members_are_indented_by_a_flat_count() {
    let lines = lines_of(&[
        Atom::Object(1, 2),
        Atom::Set_(2),
        Atom::Nil(),
        Atom::This(),
        Atom::View(),
    ]);
    assert_eq!(
        lines,
        vec![
            "0\tobj: 1 (unknown) 2",
            "1\t   set: 2",
            "2\t   nil",
            "3\t   this",
            "4\tview"
        ]
    );
}

#[test]
fn an_empty_object_has_two_lines() {
    assert_eq!(trace_of(&[]), "--------\nOID: 0\n");
    let mut object = LocalObject::default();
    object.set_oid(4_000_000_000);
    let text = object.trace_string(&CodeArena::new(), &OpcodeNames::new(), &Vec::new()).unwrap();
    assert_eq!(text, "--------\nOID: 4000000000\n");
}

#[test]
fn trace_out_appends() {
    let object = object_with(&[Atom::Nil()]);
    let mut out = String::from("before\n");
    let r = object.trace_out(&CodeArena::new(), &OpcodeNames::new(), &Vec::new(), &mut out);
    assert_eq!(r, Ok(()));
    assert_eq!(out, "before\n--------\n0\tnil\nOID: 0\n");
}

#[test]
fn missing_numbers_count_as_empty() {
    let object = object_with(&[Atom::FloatBits(1f32.to_bits()), Atom::FloatBits(2f32.to_bits())]);
    let numbers = vec![String::from("1.000000e0")];
    let text = object.trace_string(&CodeArena::new(), &OpcodeNames::new(), &numbers).unwrap();
    assert_eq!(text, "--------\n0\tnb: 1.000000e0\n1\tnb: \nOID: 0\n");
}

#[test]
fn strings_come_out_as_they_went_in() {
    for text in ["", "a", "abc", "abcd", "abcde", "hello, world", "12345678"] {
        let packed = replicode::payload::pack_string(text.as_bytes()).unwrap();
        let lines = lines_of(&packed);
        assert_eq!(lines.len(), 1 + (text.len() + 3) / 4);
        assert_eq!(lines[0], format!("0\tst: {}", (text.len() + 3) / 4));
        let mut decoded = String::new();
        for (k, line) in lines[1..].iter().enumerate() {
            let prefix = format!("{}\t   ", k + 1);
            assert!(line.starts_with(&prefix));
            decoded.push_str(&line[prefix.len()..]);
        }
        assert_eq!(decoded, text);
    }
}

#[test]
fn string_of_four_is_one_full_block() {
    let packed = replicode::payload::pack_string(b"abcd").unwrap();
    assert_eq!(trace_of(&packed), "--------\n0\tst: 1\n1\t   abcd\nOID: 0\n");
}

#[test]
fn string_of_five_has_a_partial_block() {
    let packed = replicode::payload::pack_string(b"abcde").unwrap();
    assert_eq!(trace_of(&packed), "--------\n0\tst: 2\n1\t   abcd\n2\t   e\nOID: 0\n");
}

#[test]
fn empty_string_has_no_blocks() {
    let packed = replicode::payload::pack_string(b"").unwrap();
    assert_eq!(trace_of(&packed), "--------\n0\tst: 0\nOID: 0\n");
}

#[test]
fn longest_string_comes_out_whole() {
    let text: Vec<u8> = (0..255u32).map(|i| b'a' + (i % 26) as u8).collect();
    let packed = replicode::payload::pack_string(&text).unwrap();
    let lines = lines_of(&packed);
    assert_eq!(lines.len(), 65);
    let mut decoded = String::new();
    for (k, line) in lines[1..].iter().enumerate() {
        decoded.push_str(&line[format!("{}\t   ", k + 1).len()..]);
    }
    assert_eq!(decoded.as_bytes(), &text[..]);
}

#[test]
fn string_bytes_become_the_characters_with_their_codes() {
    let packed = replicode::payload::pack_string(&[0xE9, 0x41, 0x7F, 0x20, 0xFF]).unwrap();
    let lines = lines_of(&packed);
    assert_eq!(lines[1], "1\t   \u{e9}A\u{7f} ");
    assert_eq!(lines[2], "2\t   \u{ff}");
}

#[test]
fn a_block_that_looks_like_a_known_cell_is_read_as_that_cell() {
    let packed = replicode::payload::pack_string(&[b'a', b'b', b'c', 0x80, b'd']).unwrap();
    assert_eq!(packed[1].atom_, 0x80636261);
    let names = OpcodeNames::new();
    let mut context = TraceContext::default();
    let mut traced = Vec::new();
    for a in &packed {
        let mut out = String::new();
        a.trace(&mut context, &names, "", &mut out);
        traced.push(out);
    }
    assert_eq!(traced, vec!["st: 2", "   nil", "   d\0\0\0"]);
    assert_eq!((context.members_to_go_, context.string_data_, context.char_count_), (0, 1, 1));
    let object = object_with(&packed);
    assert_eq!(
        object.trace_string(&CodeArena::new(), &names, &numbers_of(&object)),
        Err(CodeError::MalformedSequence)
    );
}

#[test]
fn string_context_counts_blocks_and_characters() {
    let names = OpcodeNames::new();
    let mut context = TraceContext::default();
    let mut out = String::new();
    Atom::String(6).trace(&mut context, &names, "", &mut out);
    assert_eq!((context.members_to_go_, context.string_data_, context.char_count_), (2, 2, 6));
    Atom::new(0x64636261).trace(&mut context, &names, "", &mut out);
    assert_eq!((context.members_to_go_, context.string_data_, context.char_count_), (1, 1, 2));
    Atom::new(0x68676665).trace(&mut context, &names, "", &mut out);
    assert_eq!((context.members_to_go_, context.string_data_, context.char_count_), (0, 0, 0));
    assert_eq!(out, "st: 2   abcd   ef");
    Atom::new(0x64636261).trace(&mut context, &names, "<n>", &mut out);
    assert_eq!(out, "st: 2   abcd   efnb: <n>");
}

#[test]
fn timestamps_are_read_from_two_halves() {
    let packed = replicode::payload::pack_timestamp(1_500_000);
    assert_eq!(
        trace_of(&packed),
        "--------\n0\tus\n1\t   0\n2\t   1500000 1s:500ms:0us\nOID: 0\n"
    );
    let lines = lines_of(&replicode::payload::pack_timestamp(0));
    assert_eq!(lines, vec!["0\tus", "1\t   0", "2\t   0 0s:0ms:0us"]);
    let lines = lines_of(&replicode::payload::pack_timestamp(1));
    assert_eq!(lines[2], "2\t   1 0s:0ms:1us");
    let lines = lines_of(&replicode::payload::pack_timestamp(-1));
    assert_eq!(lines[1], "1\t   4294967295");
    assert_eq!(lines[2], "2\t   4294967295 -0s:0ms:1us");
    let lines = lines_of(&replicode::payload::pack_timestamp(i64::MAX));
    assert_eq!(lines[1], "1\t   2147483647");
    assert_eq!(lines[2], "2\t   4294967295 9223372036854s:775ms:807us");
    let lines = lines_of(&replicode::payload::pack_timestamp(i64::MIN));
    assert_eq!(lines[1], "1\t   2147483648");
    assert_eq!(lines[2], "2\t   0 -9223372036854s:775ms:808us");
    let lines = lines_of(&replicode::payload::pack_timestamp(0x1_0000_0001));
    assert_eq!(lines[1], "1\t   1");
    assert_eq!(lines[2], "2\t   1 4294s:967ms:297us");
}

#[test]
fn timestamp_halves_are_not_read_by_their_descriptor() {
    let lines = lines_of(&[Atom::Timestamp(), Atom::Object(7, 9), Atom::RPointer(0), Atom::Nil()]);
    assert_eq!(lines[1], "1\t   3271558921");
    assert_eq!(lines[2], format!("2\t   2231369728 {}", {
        let t = ((0xC3000709u64 << 32) | 0x85000000u64) as i64;
        let m = t.unsigned_abs();
        format!("-{}s:{}ms:{}us", m / 1_000_000, m / 1000 % 1000, m % 1000)
    }));
    assert_eq!(lines[3], "3\tnil");
}

#[test]
fn timestamp_context_keeps_the_high_half() {
    let names = OpcodeNames::new();
    let mut context = TraceContext::default();
    let mut out = String::new();
    Atom::Timestamp().trace(&mut context, &names, "", &mut out);
    assert_eq!((context.members_to_go_, context.timestamp_data_), (2, 2));
    Atom::new(7).trace(&mut context, &names, "", &mut out);
    assert_eq!((context.members_to_go_, context.timestamp_data_), (1, 1));
    assert_eq!(context.timestamp_high_, 7);
    Atom::new(9).trace(&mut context, &names, "", &mut out);
    assert_eq!((context.members_to_go_, context.timestamp_data_), (0, 0));
    assert_eq!(context.timestamp_high_, 7);
    assert_eq!(out, "us   7   9 30064s:771ms:81us");
}

#[test]
fn code_that_ends_inside_a_string_or_timestamp_is_malformed() {
    let ends_early = |code: &[Atom]| {
        let object = object_with(code);
        let mut out = String::from("kept");
        let r = object.trace_out(&CodeArena::new(), &OpcodeNames::new(), &Vec::new(), &mut out);
        assert_eq!(r.is_err(), out == "kept");
        r == Err(CodeError::MalformedSequence)
    };
    assert!(ends_early(&[Atom::String(5), Atom::new(0x64636261)]));
    assert!(ends_early(&[Atom::String(1)]));
    assert!(ends_early(&[Atom::Timestamp()]));
    assert!(ends_early(&[Atom::Timestamp(), Atom::new(0)]));
    assert!(ends_early(&[Atom::Set_(1)]));
    assert!(ends_early(&[Atom::Nil(), Atom::Object(1, 3), Atom::Nil(), Atom::Nil()]));
    assert!(!ends_early(&[Atom::Nil(), Atom::Object(1, 3), Atom::Nil(), Atom::Nil(), Atom::Nil()]));
    assert!(!ends_early(&[Atom::Set_(0)]));
    assert!(!ends_early(&[Atom::Timestamp(), Atom::new(0), Atom::new(0)]));
}

#[test]
fn tracing_past_the_end_fails_and_writes_nothing() {
    let object = object_with(&[Atom::Object(1, 1), Atom::Nil()]);
    let arena = CodeArena::new();
    let names = OpcodeNames::new();
    let mut context = TraceContext::default();
    let mut out = String::new();
    assert_eq!(object.trace_at(0, &arena, &names, "", &mut out, &mut context), Ok(()));
    assert_eq!(out, "obj: 1 (unknown) 1");
    let before = context;
    assert_eq!(
        object.trace_at(2, &arena, &names, "", &mut out, &mut context),
        Err(CodeError::OutOfRange)
    );
    assert_eq!(out, "obj: 1 (unknown) 1");
    assert_eq!(context, before);
    assert_eq!(object.trace_at(1, &arena, &names, "", &mut out, &mut context), Ok(()));
    assert_eq!(out, "obj: 1 (unknown) 1   nil");
    assert_eq!(
        replicode::code_trace::trace_at(&object, 9, &arena, &names, "", &mut out, &mut context),
        Err(CodeError::OutOfRange)
    );
}

fn arena_of_oids(oids: &[u32]) -> CodeArena {
    let mut arena = CodeArena::new();
    for oid in oids {
        let mut object = LocalObject::default();
        object.set_oid(*oid);
        arena.add(object);
    }
    arena
}

fn object_referring(code: &[Atom], indices: &[u16], targets: &[usize]) -> LocalObject {
    let mut object = LocalObject::default();
    let image = replicode::SysObject { code_: code.to_vec(), references_: indices.to_vec() };
    object.load(&image, targets).unwrap();
    object
}

#[test]
fn the_last_reference_resolves_and_the_next_index_is_unassigned() {
    let arena = arena_of_oids(&[500, 600, 700]);
    for k in 1..=3u16 {
        let indices: Vec<u16> = (0..k).collect();
        let object = object_referring(
            &[Atom::Set_(3), Atom::RPointer(k - 1), Atom::RPointer(k), Atom::Nil()],
            &indices,
            &[0, 1, 2],
        );
        let text = object.trace_string(&arena, &OpcodeNames::new(), &Vec::new()).unwrap();
        assert_eq!(
            text,
            format!(
                "--------\n0\tset: 3\n1\t   rptr: {} -> {}\n2\t   rptr: {} (unassigned) \n3\t   nil\nOID: 0\n",
                k - 1,
                [500, 600, 700][(k - 1) as usize],
                k
            )
        );
    }
}

#[test]
fn an_unassigned_reference_leaves_the_context_as_a_resolved_one_does() {
    let arena = arena_of_oids(&[500]);
    let object =
        object_referring(&[Atom::RPointer(0), Atom::RPointer(1), Atom::RPointer(4095)], &[0], &[0]);
    let names = OpcodeNames::new();
    for start in [
        TraceContext::default(),
        TraceContext { members_to_go_: 5, string_data_: 2, char_count_: 7, ..TraceContext::default() },
    ] {
        let mut after = Vec::new();
        for i in 0..3 {
            let mut context = start;
            let mut out = String::new();
            object.trace_at(i, &arena, &names, "", &mut out, &mut context).unwrap();
            after.push((out, context));
        }
        let indent = if start.members_to_go_ > 0 { "   " } else { "" };
        assert_eq!(after[0].0, format!("{}rptr: 0 -> 500", indent));
        assert_eq!(after[1].0, format!("{}rptr: 1 (unassigned) ", indent));
        assert_eq!(after[2].0, format!("{}rptr: 4095 (unassigned) ", indent));
        assert_eq!(after[0].1, after[1].1);
        assert_eq!(after[0].1, after[2].1);
        assert_eq!(
            after[0].1,
            TraceContext { members_to_go_: start.members_to_go_.saturating_sub(1), ..start }
        );
    }
}

#[test]
fn a_reference_to_an_object_that_the_arena_lacks_is_unassigned() {
    let arena = arena_of_oids(&[500]);
    let object = object_referring(&[Atom::RPointer(0), Atom::RPointer(1)], &[0, 1], &[0, 1]);
    let text = object.trace_string(&arena, &OpcodeNames::new(), &Vec::new()).unwrap();
    assert_eq!(text, "--------\n0\trptr: 0 -> 500\n1\trptr: 1 (unassigned) \nOID: 0\n");
}

#[test]
fn references_in_a_cycle_are_traced() {
    let mut arena = arena_of_oids(&[1, 2]);
    let mut a = object_referring(&[Atom::RPointer(0)], &[1], &[0, 1]);
    a.set_oid(1);
    let mut b = object_referring(&[Atom::RPointer(0)], &[0], &[0, 1]);
    b.set_oid(2);
    arena.put(0, a).unwrap();
    arena.put(1, b).unwrap();
    let names = OpcodeNames::new();
    let text = arena.get(0).unwrap().trace_string(&arena, &names, &Vec::new()).unwrap();
    assert_eq!(text, "--------\n0\trptr: 0 -> 2\nOID: 1\n");
    let text = arena.get(1).unwrap().trace_string(&arena, &names, &Vec::new()).unwrap();
    assert_eq!(text, "--------\n0\trptr: 0 -> 1\nOID: 2\n");
}

#[test]
fn detail_oids_follow_oids_in_brackets() {
    let mut counter = replicode::DetailOids::new(true);
    let mut target = LocalObject::new(&mut counter);
    target.set_oid(5);
    let mut arena = CodeArena::new();
    let handle = arena.add(target);
    let mut object = LocalObject::new(&mut counter);
    object.set_oid(6);
    let image = replicode::SysObject { code_: vec![Atom::RPointer(0)], references_: vec![0] };
    object.load(&image, &[handle]).unwrap();
    let text = object.trace_string(&arena, &OpcodeNames::new(), &Vec::new()).unwrap();
    assert_eq!(text, "--------\n0\trptr: 0 -> 5(11)\nOID: 6(12)\n");
}

#[test]
fn unwritten_registry_gives_unknown() {
    let names = OpcodeNames::new();
    assert_eq!(replicode::get_opcode_name(&names, 0), "unknown");
    assert_eq!(replicode::get_opcode_name(&names, 7), "unknown");
}

#[test]
fn written_registry_gives_names_and_unknown_for_the_rest() {
    let names = names_with(&[(0, "zero"), (7, "add"), (u16::MAX, "max")]);
    assert_eq!(replicode::get_opcode_name(&names, 0), "zero");
    assert_eq!(replicode::get_opcode_name(&names, 7), "add");
    assert_eq!(replicode::get_opcode_name(&names, u16::MAX), "max");
    assert_eq!(replicode::get_opcode_name(&names, 8), "unknown");
}

#[test]
fn registry_copies_the_table() {
    let mut table = HashMap::new();
    table.insert(7u16, String::from("add"));
    let mut names = OpcodeNames::new();
    assert!(set_opcode_names(&mut names, &table));
    table.insert(7u16, String::from("changed"));
    table.insert(8u16, String::from("new"));
    assert_eq!(replicode::get_opcode_name(&names, 7), "add");
    assert_eq!(replicode::get_opcode_name(&names, 8), "unknown");
}

#[test]
fn second_write_fails_even_with_an_empty_first_table() {
    let mut names = OpcodeNames::new();
    assert!(set_opcode_names(&mut names, &HashMap::new()));
    let mut table = HashMap::new();
    table.insert(7u16, String::from("add"));
    assert!(!set_opcode_names(&mut names, &table));
    assert!(!set_opcode_names(&mut names, &HashMap::new()));
    assert_eq!(replicode::get_opcode_name(&names, 7), "unknown");
}

#[test]
fn shapes_and_labels() {
    assert_eq!(trace_shape(0x80), TraceShape::Literal);
    assert_eq!(trace_shape(0x81), TraceShape::Boolean);
    assert_eq!(trace_shape(0x85), TraceShape::Index);
    assert_eq!(trace_shape(0x88), TraceShape::InputIndex);
    assert_eq!(trace_shape(0x8D), TraceShape::Assignment);
    assert_eq!(trace_shape(0xA0), TraceShape::Node);
    assert_eq!(trace_shape(0xA1), TraceShape::Device);
    assert_eq!(trace_shape(0xA2), TraceShape::Function);
    assert_eq!(trace_shape(0xC0), TraceShape::Count);
    assert_eq!(trace_shape(0xC3), TraceShape::Header);
    assert_eq!(trace_shape(0xC6), TraceShape::StringHeader);
    assert_eq!(trace_shape(0xC7), TraceShape::TimestampHeader);
    assert_eq!(trace_shape(0xCF), TraceShape::NullProgram);
    assert_eq!(trace_shape(0xCA), TraceShape::Header);
    assert_eq!(trace_shape(0xC9), TraceShape::Header);
    assert_eq!(trace_shape(0xD0), TraceShape::Payload);
    assert_eq!(trace_shape(0x00), TraceShape::Payload);
    assert_eq!(trace_shape(0xFF), TraceShape::Payload);
    assert_eq!(trace_label(0x85), "rptr: ");
    assert_eq!(trace_label(0xC7), "us");
    assert_eq!(trace_label(0xCA), "ipgm: ");
    assert_eq!(trace_label(0xC9), "ipgm: ");
    assert_eq!(trace_label(0xCB), "ipgm: ");
    assert_eq!(trace_label(0xCC), "ipgm: ");
    assert_eq!(trace_label(0xD0), "");
    let mut known = 0;
    for d in 0..=255u8 {
        if trace_shape(d) == TraceShape::Payload {
            assert_eq!(trace_label(d), "");
        } else {
            assert!(!trace_label(d).is_empty());
            known += 1;
        }
    }
    assert_eq!(known, 38);
}
