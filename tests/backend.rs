use mirage::assembly::{
    Asm, AsmArg, AsmCommand, AsmLabel, AsmLabelBuilder, AsmProgram, AsmProgramBuilder, Reg,
};
use mirage::environement::Environement;
use mirage::regalloc::RegisterAllocator;

#[test]
fn registers_in_order() {
    let all = Reg::all();
    assert_eq!(all.len(), 16);
    assert_eq!(all[0], Reg::R0);
    assert_eq!(all[15], Reg::R15);
    assert_eq!(Reg::R7.index(), 7);
}

#[test]
fn label_builder_appends_instructions() {
    let mut b = AsmLabelBuilder::new("main");
    b.build_mov(AsmArg::Reg(Reg::R0), AsmArg::Imm(1));
    b.build_add(AsmArg::Reg(Reg::R0), AsmArg::Mem(Reg::R1, 8));
    b.build_sub(AsmArg::Reg(Reg::R0), AsmArg::Imm(2));
    b.build_mul(AsmArg::Reg(Reg::R0), AsmArg::Imm(3));
    b.build_div(AsmArg::Reg(Reg::R0), AsmArg::Imm(4));
    b.build_jmp(AsmArg::Label("end".to_string()));
    b.build_call(AsmArg::Label("puts".to_string()));
    let label = b.build();
    assert_eq!(label.label, "main");
    assert_eq!(label.code.len(), 7);
    assert_eq!(label.code[0], Asm::new(AsmCommand::Mov, vec![AsmArg::Reg(Reg::R0), AsmArg::Imm(1)]));
    assert_eq!(label.code[6], Asm::new(AsmCommand::Call, vec![AsmArg::Label("puts".to_string())]));
    let fresh = label.builder().build();
    assert_eq!(fresh, AsmLabel::new("main".to_string()));
    let again = AsmLabelBuilder::from(label.clone()).build();
    assert_eq!(again, label);
}

#[test]
fn program_builder_collects_labels() {
    let mut p = AsmProgramBuilder::new();
    p.build_label(AsmLabel::new("a".to_string()));
    p.build_label(AsmLabel::new("b".to_string()));
    let program = p.build();
    assert_eq!(program.labels.len(), 2);
    assert_eq!(program.labels[1].label, "b");
    assert!(AsmProgram::new().labels.is_empty());
}

#[test]
fn allocator_hands_out_free_registers_in_order() {
    let mut a = RegisterAllocator::all();
    a.make_reserved(Reg::R0);
    assert_eq!(a.get(), Some(Reg::R1));
    assert!(a.is_used(Reg::R1));
    assert!(!a.is_used(Reg::R0));
    assert_eq!(a.get(), Some(Reg::R2));
    a.make_dirty(Reg::R2);
    a.make_live(Reg::R2);
    a.make_dead(Reg::R2);
    for _ in 3..16 {
        assert!(a.get().is_some());
    }
    assert_eq!(a.get(), None);
}

#[test]
fn environment_keeps_the_latest_label() {
    let mut e = Environement::new();
    assert_eq!(e.get_label(&"x".to_string()), None);
    e.add_label("x".to_string(), "L1".to_string());
    e.add_label("y".to_string(), "L2".to_string());
    e.add_label("x".to_string(), "L3".to_string());
    assert_eq!(e.get_label(&"x".to_string()), Some(&"L3".to_string()));
    assert_eq!(e.get_label(&"y".to_string()), Some(&"L2".to_string()));
}
