use synacor_vm::alu::{word_add, word_mult, word_not};
use synacor_vm::disasm::{disassemble, instruction_length, mnemonic};
use synacor_vm::image::words_from_bytes;
use synacor_vm::input::InputBuffer;
use synacor_vm::value::{parse, Value};

fn listing(program: &[u16]) -> String {
    String::from_utf8(disassemble(&program.to_vec())).unwrap()
}

#[test]
fn words_are_classified() {
    assert_eq!(parse(0), Value::Literal(0));
    assert_eq!(parse(32767), Value::Literal(32767));
    assert_eq!(parse(32768), Value::Register(0));
    assert_eq!(parse(32775), Value::Register(7));
    assert_eq!(parse(32776), Value::Invalid(32776));
    assert_eq!(parse(65535), Value::Invalid(65535));
}

#[test]
fn addition_and_multiplication_wrap() {
    assert_eq!(word_add(32758, 15), 5);
    assert_eq!(word_add(32767, 1), 0);
    assert_eq!(word_add(2, 3), 5);
    assert_eq!(word_mult(200, 200), 7232);
    assert_eq!(word_mult(32767, 32767), 1);
}

#[test]
fn complement_is_masked_and_involutive() {
    assert_eq!(word_not(0), 32767);
    assert_eq!(word_not(32767), 0);
    assert_eq!(word_not(0x5555), 0x2aaa);
    assert_eq!(word_not(word_not(12345)), 12345);
}

#[test]
fn consecutive_outs_share_one_string() {
    assert_eq!(listing(&[19, 65, 19, 66, 19, 10]), "0: out \"AB\\n\"\n");
}

#[test]
fn listing_of_mixed_instructions() {
    let program = [9, 32768, 32769, 4, 21, 30000, 19, 34, 19, 92, 19, 7, 0];
    assert_eq!(
        listing(&program),
        "0: add r0 r1 4\n4: noop\n5: data 30000\n6: out \"\\\"\\\\\\7\"\n12: halt\n"
    );
}

#[test]
fn string_is_reopened_after_another_instruction() {
    assert_eq!(
        listing(&[19, 200, 21, 19, 104]),
        "0: out \"\\200\"\n2: noop\n3: out \"h\"\n"
    );
}

#[test]
fn truncated_instructions_are_data() {
    assert_eq!(listing(&[9, 1]), "0: data 9\n1: data 1\n");
    assert_eq!(listing(&[19]), "0: data 19\n");
    assert_eq!(listing(&[]), "");
}

#[test]
fn opcode_table() {
    assert_eq!(mnemonic(0), "halt");
    assert_eq!(mnemonic(10), "mult");
    assert_eq!(mnemonic(21), "noop");
    assert_eq!(instruction_length(0), 1);
    assert_eq!(instruction_length(3), 2);
    assert_eq!(instruction_length(14), 3);
    assert_eq!(instruction_length(13), 4);
}

#[test]
fn image_bytes_are_little_endian() {
    assert_eq!(words_from_bytes(&vec![0x34, 0x12, 0xff, 0x7f, 0x09]), vec![0x1234, 0x7fff]);
    assert_eq!(words_from_bytes(&vec![]), Vec::<u16>::new());
}

#[test]
fn input_buffer_is_first_in_first_out() {
    let mut b = InputBuffer::new();
    assert!(b.is_empty());
    b.refill("ab");
    b.refill("\u{e9}");
    assert_eq!(b.len(), 3);
    assert_eq!(b.peek(), Some(97));
    assert_eq!(b.next_char(), Some(97));
    assert_eq!(b.next_char(), Some(98));
    assert_eq!(b.next_char(), Some(233));
    assert_eq!(b.next_char(), None);
}
