use vstd::prelude::*;

verus! {

/// The instructions of the Java virtual machine, one variant per opcode byte that the
/// specification assigns, and `UNKNOWN` for the bytes it leaves unassigned.
#[allow(non_camel_case_types)]
#[derive(Debug, Clone, Copy, PartialEq, Eq, Structural)]
pub enum OpCode {
    NOP,
    ACONSTNULL,
    ICONSTM1,
    ICONST0,
    ICONST1,
    ICONST2,
    ICONST3,
    ICONST4,
    ICONST5,
    LCONST0,
    LCONST1,
    FCONST0,
    FCONST1,
    FCONST2,
    DCONST0,
    DCONST1,
    BIPUSH,
    SIPUSH,
    LDC,
    LDCW,
    LDC2W,
    ILOAD,
    LLOAD,
    FLOAD,
    DLOAD,
    ALOAD,
    ILOAD0,
    ILOAD1,
    ILOAD2,
    ILOAD3,
    LLOAD0,
    LLOAD1,
    LLOAD2,
    LLOAD3,
    FLOAD0,
    FLOAD1,
    FLOAD2,
    FLOAD3,
    DLOAD0,
    DLOAD1,
    DLOAD2,
    DLOAD3,
    ALOAD0,
    ALOAD1,
    ALOAD2,
    ALOAD3,
    IALOAD,
    LALOAD,
    FALOAD,
    DALOAD,
    AALOAD,
    BALOAD,
    CALOAD,
    SALOAD,
    ISTORE,
    LSTORE,
    FSTORE,
    DSTORE,
    ASTORE,
    ISTORE0,
    ISTORE1,
    ISTORE2,
    ISTORE3,
    LSTORE0,
    LSTORE1,
    LSTORE2,
    LSTORE3,
    FSTORE0,
    FSTORE1,
    FSTORE2,
    FSTORE3,
    DSTORE0,
    DSTORE1,
    DSTORE2,
    DSTORE3,
    ASTORE0,
    ASTORE1,
    ASTORE2,
    ASTORE3,
    IASTORE,
    LASTORE,
    FASTORE,
    DASTORE,
    AASTORE,
    BASTORE,
    CASTORE,
    SASTORE,
    POP,
    POP2,
    DUP,
    DUPX1,
    DUPX2,
    DUP2,
    DUP2X1,
    DUP2X2,
    SWAP,
    IADD,
    LADD,
    FADD,
    DADD,
    ISUB,
    LSUB,
    FSUB,
    DSUB,
    IMUL,
    LMUL,
    FMUL,
    DMUL,
    IDIV,
    LDIV,
    FDIV,
    DDIV,
    IREM,
    LREM,
    FREM,
    DREM,
    INEG,
    LNEG,
    FNEG,
    DNEG,
    ISHL,
    LSHL,
    ISHR,
    LSHR,
    IUSHR,
    LUSHR,
    IAND,
    LAND,
    IOR,
    LOR,
    IXOR,
    LXOR,
    IINC,
    I2L,
    I2F,
    I2D,
    L2I,
    L2F,
    L2D,
    F2I,
    F2L,
    F2D,
    D2I,
    D2L,
    D2F,
    I2B,
    I2C,
    I2S,
    LCMP,
    FCMPL,
    FCMPG,
    DCMPL,
    DCMPG,
    IFEQ,
    IFNE,
    IFLT,
    IFGE,
    IFGT,
    IFLE,
    IFICMPEQ,
    IFICMPNE,
    IFICMPLT,
    IFICMPGE,
    IFICMPGT,
    IFICMPLE,
    IFACMPEQ,
    IFACMPNE,
    GOTO,
    JSR,
    RET,
    TABLESWITCH,
    LOOKUPSWITCH,
    IRETURN,
    LRETURN,
    FRETURN,
    DRETURN,
    ARETURN,
    RETURN,
    GETSTATIC,
    PUTSTATIC,
    GETFIELD,
    PUTFIELD,
    INVOKEVIRTUAL,
    INVOKESPECIAL,
    INVOKESTATIC,
    INVOKEINTERFACE,
    INVOKEDYNAMIC,
    NEW,
    NEWARRAY,
    ANEWARRAY,
    ARRAYLENGTH,
    ATHROW,
    CHECKCAST,
    INSTANCEOF,
    MONITORENTER,
    MONITOREXIT,
    WIDE,
    MULTIANEWARRAY,
    IFNULL,
    IFNONNULL,
    GOTOW,
    JSRW,
    BREAKPOINT,
    IMPDEP1,
    IMPDEP2,
    UNKNOWN,
}

/// The instruction that the opcode byte `b` stands for.
pub open spec fn opcode_of(b: u8) -> OpCode {
    match b {
        0u8 => OpCode::NOP,
        1u8 => OpCode::ACONSTNULL,
        2u8 => OpCode::ICONSTM1,
        3u8 => OpCode::ICONST0,
        4u8 => OpCode::ICONST1,
        5u8 => OpCode::ICONST2,
        6u8 => OpCode::ICONST3,
        7u8 => OpCode::ICONST4,
        8u8 => OpCode::ICONST5,
        9u8 => OpCode::LCONST0,
        10u8 => OpCode::LCONST1,
        11u8 => OpCode::FCONST0,
        12u8 => OpCode::FCONST1,
        13u8 => OpCode::FCONST2,
        14u8 => OpCode::DCONST0,
        15u8 => OpCode::DCONST1,
        16u8 => OpCode::BIPUSH,
        17u8 => OpCode::SIPUSH,
        18u8 => OpCode::LDC,
        19u8 => OpCode::LDCW,
        20u8 => OpCode::LDC2W,
        21u8 => OpCode::ILOAD,
        22u8 => OpCode::LLOAD,
        23u8 => OpCode::FLOAD,
        24u8 => OpCode::DLOAD,
        25u8 => OpCode::ALOAD,
        26u8 => OpCode::ILOAD0,
        27u8 => OpCode::ILOAD1,
        28u8 => OpCode::ILOAD2,
        29u8 => OpCode::ILOAD3,
        30u8 => OpCode::LLOAD0,
        31u8 => OpCode::LLOAD1,
        32u8 => OpCode::LLOAD2,
        33u8 => OpCode::LLOAD3,
        34u8 => OpCode::FLOAD0,
        35u8 => OpCode::FLOAD1,
        36u8 => OpCode::FLOAD2,
        37u8 => OpCode::FLOAD3,
        38u8 => OpCode::DLOAD0,
        39u8 => OpCode::DLOAD1,
        40u8 => OpCode::DLOAD2,
        41u8 => OpCode::DLOAD3,
        42u8 => OpCode::ALOAD0,
        43u8 => OpCode::ALOAD1,
        44u8 => OpCode::ALOAD2,
        45u8 => OpCode::ALOAD3,
        46u8 => OpCode::IALOAD,
        47u8 => OpCode::LALOAD,
        48u8 => OpCode::FALOAD,
        49u8 => OpCode::DALOAD,
        50u8 => OpCode::AALOAD,
        51u8 => OpCode::BALOAD,
        52u8 => OpCode::CALOAD,
        53u8 => OpCode::SALOAD,
        54u8 => OpCode::ISTORE,
        55u8 => OpCode::LSTORE,
        56u8 => OpCode::FSTORE,
        57u8 => OpCode::DSTORE,
        58u8 => OpCode::ASTORE,
        59u8 => OpCode::ISTORE0,
        60u8 => OpCode::ISTORE1,
        61u8 => OpCode::ISTORE2,
        62u8 => OpCode::ISTORE3,
        63u8 => OpCode::LSTORE0,
        64u8 => OpCode::LSTORE1,
        65u8 => OpCode::LSTORE2,
        66u8 => OpCode::LSTORE3,
        67u8 => OpCode::FSTORE0,
        68u8 => OpCode::FSTORE1,
        69u8 => OpCode::FSTORE2,
        70u8 => OpCode::FSTORE3,
        71u8 => OpCode::DSTORE0,
        72u8 => OpCode::DSTORE1,
        73u8 => OpCode::DSTORE2,
        74u8 => OpCode::DSTORE3,
        75u8 => OpCode::ASTORE0,
        76u8 => OpCode::ASTORE1,
        77u8 => OpCode::ASTORE2,
        78u8 => OpCode::ASTORE3,
        79u8 => OpCode::IASTORE,
        80u8 => OpCode::LASTORE,
        81u8 => OpCode::FASTORE,
        82u8 => OpCode::DASTORE,
        83u8 => OpCode::AASTORE,
        84u8 => OpCode::BASTORE,
        85u8 => OpCode::CASTORE,
        86u8 => OpCode::SASTORE,
        87u8 => OpCode::POP,
        88u8 => OpCode::POP2,
        89u8 => OpCode::DUP,
        90u8 => OpCode::DUPX1,
        91u8 => OpCode::DUPX2,
        92u8 => OpCode::DUP2,
        93u8 => OpCode::DUP2X1,
        94u8 => OpCode::DUP2X2,
        95u8 => OpCode::SWAP,
        96u8 => OpCode::IADD,
        97u8 => OpCode::LADD,
        98u8 => OpCode::FADD,
        99u8 => OpCode::DADD,
        100u8 => OpCode::ISUB,
        101u8 => OpCode::LSUB,
        102u8 => OpCode::FSUB,
        103u8 => OpCode::DSUB,
        104u8 => OpCode::IMUL,
        105u8 => OpCode::LMUL,
        106u8 => OpCode::FMUL,
        107u8 => OpCode::DMUL,
        108u8 => OpCode::IDIV,
        109u8 => OpCode::LDIV,
        110u8 => OpCode::FDIV,
        111u8 => OpCode::DDIV,
        112u8 => OpCode::IREM,
        113u8 => OpCode::LREM,
        114u8 => OpCode::FREM,
        115u8 => OpCode::DREM,
        116u8 => OpCode::INEG,
        117u8 => OpCode::LNEG,
        118u8 => OpCode::FNEG,
        119u8 => OpCode::DNEG,
        120u8 => OpCode::ISHL,
        121u8 => OpCode::LSHL,
        122u8 => OpCode::ISHR,
        123u8 => OpCode::LSHR,
        124u8 => OpCode::IUSHR,
        125u8 => OpCode::LUSHR,
        126u8 => OpCode::IAND,
        127u8 => OpCode::LAND,
        128u8 => OpCode::IOR,
        129u8 => OpCode::LOR,
        130u8 => OpCode::IXOR,
        131u8 => OpCode::LXOR,
        132u8 => OpCode::IINC,
        133u8 => OpCode::I2L,
        134u8 => OpCode::I2F,
        135u8 => OpCode::I2D,
        136u8 => OpCode::L2I,
        137u8 => OpCode::L2F,
        138u8 => OpCode::L2D,
        139u8 => OpCode::F2I,
        140u8 => OpCode::F2L,
        141u8 => OpCode::F2D,
        142u8 => OpCode::D2I,
        143u8 => OpCode::D2L,
        144u8 => OpCode::D2F,
        145u8 => OpCode::I2B,
        146u8 => OpCode::I2C,
        147u8 => OpCode::I2S,
        148u8 => OpCode::LCMP,
        149u8 => OpCode::FCMPL,
        150u8 => OpCode::FCMPG,
        151u8 => OpCode::DCMPL,
        152u8 => OpCode::DCMPG,
        153u8 => OpCode::IFEQ,
        154u8 => OpCode::IFNE,
        155u8 => OpCode::IFLT,
        156u8 => OpCode::IFGE,
        157u8 => OpCode::IFGT,
        158u8 => OpCode::IFLE,
        159u8 => OpCode::IFICMPEQ,
        160u8 => OpCode::IFICMPNE,
        161u8 => OpCode::IFICMPLT,
        162u8 => OpCode::IFICMPGE,
        163u8 => OpCode::IFICMPGT,
        164u8 => OpCode::IFICMPLE,
        165u8 => OpCode::IFACMPEQ,
        166u8 => OpCode::IFACMPNE,
        167u8 => OpCode::GOTO,
        168u8 => OpCode::JSR,
        169u8 => OpCode::RET,
        170u8 => OpCode::TABLESWITCH,
        171u8 => OpCode::LOOKUPSWITCH,
        172u8 => OpCode::IRETURN,
        173u8 => OpCode::LRETURN,
        174u8 => OpCode::FRETURN,
        175u8 => OpCode::DRETURN,
        176u8 => OpCode::ARETURN,
        177u8 => OpCode::RETURN,
        178u8 => OpCode::GETSTATIC,
        179u8 => OpCode::PUTSTATIC,
        180u8 => OpCode::GETFIELD,
        181u8 => OpCode::PUTFIELD,
        182u8 => OpCode::INVOKEVIRTUAL,
        183u8 => OpCode::INVOKESPECIAL,
        184u8 => OpCode::INVOKESTATIC,
        185u8 => OpCode::INVOKEINTERFACE,
        186u8 => OpCode::INVOKEDYNAMIC,
        187u8 => OpCode::NEW,
        188u8 => OpCode::NEWARRAY,
        189u8 => OpCode::ANEWARRAY,
        190u8 => OpCode::ARRAYLENGTH,
        191u8 => OpCode::ATHROW,
        192u8 => OpCode::CHECKCAST,
        193u8 => OpCode::INSTANCEOF,
        194u8 => OpCode::MONITORENTER,
        195u8 => OpCode::MONITOREXIT,
        196u8 => OpCode::WIDE,
        197u8 => OpCode::MULTIANEWARRAY,
        198u8 => OpCode::IFNULL,
        199u8 => OpCode::IFNONNULL,
        200u8 => OpCode::GOTOW,
        201u8 => OpCode::JSRW,
        202u8 => OpCode::BREAKPOINT,
        254u8 => OpCode::IMPDEP1,
        255u8 => OpCode::IMPDEP2,
        _ => OpCode::UNKNOWN,
    }
}

/// The opcode byte of an instruction (`UNKNOWN` has none, and is given 203).
pub open spec fn byte_of(op: OpCode) -> u8 {
    match op {
        OpCode::NOP => 0u8,
        OpCode::ACONSTNULL => 1u8,
        OpCode::ICONSTM1 => 2u8,
        OpCode::ICONST0 => 3u8,
        OpCode::ICONST1 => 4u8,
        OpCode::ICONST2 => 5u8,
        OpCode::ICONST3 => 6u8,
        OpCode::ICONST4 => 7u8,
        OpCode::ICONST5 => 8u8,
        OpCode::LCONST0 => 9u8,
        OpCode::LCONST1 => 10u8,
        OpCode::FCONST0 => 11u8,
        OpCode::FCONST1 => 12u8,
        OpCode::FCONST2 => 13u8,
        OpCode::DCONST0 => 14u8,
        OpCode::DCONST1 => 15u8,
        OpCode::BIPUSH => 16u8,
        OpCode::SIPUSH => 17u8,
        OpCode::LDC => 18u8,
        OpCode::LDCW => 19u8,
        OpCode::LDC2W => 20u8,
        OpCode::ILOAD => 21u8,
        OpCode::LLOAD => 22u8,
        OpCode::FLOAD => 23u8,
        OpCode::DLOAD => 24u8,
        OpCode::ALOAD => 25u8,
        OpCode::ILOAD0 => 26u8,
        OpCode::ILOAD1 => 27u8,
        OpCode::ILOAD2 => 28u8,
        OpCode::ILOAD3 => 29u8,
        OpCode::LLOAD0 => 30u8,
        OpCode::LLOAD1 => 31u8,
        OpCode::LLOAD2 => 32u8,
        OpCode::LLOAD3 => 33u8,
        OpCode::FLOAD0 => 34u8,
        OpCode::FLOAD1 => 35u8,
        OpCode::FLOAD2 => 36u8,
        OpCode::FLOAD3 => 37u8,
        OpCode::DLOAD0 => 38u8,
        OpCode::DLOAD1 => 39u8,
        OpCode::DLOAD2 => 40u8,
        OpCode::DLOAD3 => 41u8,
        OpCode::ALOAD0 => 42u8,
        OpCode::ALOAD1 => 43u8,
        OpCode::ALOAD2 => 44u8,
        OpCode::ALOAD3 => 45u8,
        OpCode::IALOAD => 46u8,
        OpCode::LALOAD => 47u8,
        OpCode::FALOAD => 48u8,
        OpCode::DALOAD => 49u8,
        OpCode::AALOAD => 50u8,
        OpCode::BALOAD => 51u8,
        OpCode::CALOAD => 52u8,
        OpCode::SALOAD => 53u8,
        OpCode::ISTORE => 54u8,
        OpCode::LSTORE => 55u8,
        OpCode::FSTORE => 56u8,
        OpCode::DSTORE => 57u8,
        OpCode::ASTORE => 58u8,
        OpCode::ISTORE0 => 59u8,
        OpCode::ISTORE1 => 60u8,
        OpCode::ISTORE2 => 61u8,
        OpCode::ISTORE3 => 62u8,
        OpCode::LSTORE0 => 63u8,
        OpCode::LSTORE1 => 64u8,
        OpCode::LSTORE2 => 65u8,
        OpCode::LSTORE3 => 66u8,
        OpCode::FSTORE0 => 67u8,
        OpCode::FSTORE1 => 68u8,
        OpCode::FSTORE2 => 69u8,
        OpCode::FSTORE3 => 70u8,
        OpCode::DSTORE0 => 71u8,
        OpCode::DSTORE1 => 72u8,
        OpCode::DSTORE2 => 73u8,
        OpCode::DSTORE3 => 74u8,
        OpCode::ASTORE0 => 75u8,
        OpCode::ASTORE1 => 76u8,
        OpCode::ASTORE2 => 77u8,
        OpCode::ASTORE3 => 78u8,
        OpCode::IASTORE => 79u8,
        OpCode::LASTORE => 80u8,
        OpCode::FASTORE => 81u8,
        OpCode::DASTORE => 82u8,
        OpCode::AASTORE => 83u8,
        OpCode::BASTORE => 84u8,
        OpCode::CASTORE => 85u8,
        OpCode::SASTORE => 86u8,
        OpCode::POP => 87u8,
        OpCode::POP2 => 88u8,
        OpCode::DUP => 89u8,
        OpCode::DUPX1 => 90u8,
        OpCode::DUPX2 => 91u8,
        OpCode::DUP2 => 92u8,
        OpCode::DUP2X1 => 93u8,
        OpCode::DUP2X2 => 94u8,
        OpCode::SWAP => 95u8,
        OpCode::IADD => 96u8,
        OpCode::LADD => 97u8,
        OpCode::FADD => 98u8,
        OpCode::DADD => 99u8,
        OpCode::ISUB => 100u8,
        OpCode::LSUB => 101u8,
        OpCode::FSUB => 102u8,
        OpCode::DSUB => 103u8,
        OpCode::IMUL => 104u8,
        OpCode::LMUL => 105u8,
        OpCode::FMUL => 106u8,
        OpCode::DMUL => 107u8,
        OpCode::IDIV => 108u8,
        OpCode::LDIV => 109u8,
        OpCode::FDIV => 110u8,
        OpCode::DDIV => 111u8,
        OpCode::IREM => 112u8,
        OpCode::LREM => 113u8,
        OpCode::FREM => 114u8,
        OpCode::DREM => 115u8,
        OpCode::INEG => 116u8,
        OpCode::LNEG => 117u8,
        OpCode::FNEG => 118u8,
        OpCode::DNEG => 119u8,
        OpCode::ISHL => 120u8,
        OpCode::LSHL => 121u8,
        OpCode::ISHR => 122u8,
        OpCode::LSHR => 123u8,
        OpCode::IUSHR => 124u8,
        OpCode::LUSHR => 125u8,
        OpCode::IAND => 126u8,
        OpCode::LAND => 127u8,
        OpCode::IOR => 128u8,
        OpCode::LOR => 129u8,
        OpCode::IXOR => 130u8,
        OpCode::LXOR => 131u8,
        OpCode::IINC => 132u8,
        OpCode::I2L => 133u8,
        OpCode::I2F => 134u8,
        OpCode::I2D => 135u8,
        OpCode::L2I => 136u8,
        OpCode::L2F => 137u8,
        OpCode::L2D => 138u8,
        OpCode::F2I => 139u8,
        OpCode::F2L => 140u8,
        OpCode::F2D => 141u8,
        OpCode::D2I => 142u8,
        OpCode::D2L => 143u8,
        OpCode::D2F => 144u8,
        OpCode::I2B => 145u8,
        OpCode::I2C => 146u8,
        OpCode::I2S => 147u8,
        OpCode::LCMP => 148u8,
        OpCode::FCMPL => 149u8,
        OpCode::FCMPG => 150u8,
        OpCode::DCMPL => 151u8,
        OpCode::DCMPG => 152u8,
        OpCode::IFEQ => 153u8,
        OpCode::IFNE => 154u8,
        OpCode::IFLT => 155u8,
        OpCode::IFGE => 156u8,
        OpCode::IFGT => 157u8,
        OpCode::IFLE => 158u8,
        OpCode::IFICMPEQ => 159u8,
        OpCode::IFICMPNE => 160u8,
        OpCode::IFICMPLT => 161u8,
        OpCode::IFICMPGE => 162u8,
        OpCode::IFICMPGT => 163u8,
        OpCode::IFICMPLE => 164u8,
        OpCode::IFACMPEQ => 165u8,
        OpCode::IFACMPNE => 166u8,
        OpCode::GOTO => 167u8,
        OpCode::JSR => 168u8,
        OpCode::RET => 169u8,
        OpCode::TABLESWITCH => 170u8,
        OpCode::LOOKUPSWITCH => 171u8,
        OpCode::IRETURN => 172u8,
        OpCode::LRETURN => 173u8,
        OpCode::FRETURN => 174u8,
        OpCode::DRETURN => 175u8,
        OpCode::ARETURN => 176u8,
        OpCode::RETURN => 177u8,
        OpCode::GETSTATIC => 178u8,
        OpCode::PUTSTATIC => 179u8,
        OpCode::GETFIELD => 180u8,
        OpCode::PUTFIELD => 181u8,
        OpCode::INVOKEVIRTUAL => 182u8,
        OpCode::INVOKESPECIAL => 183u8,
        OpCode::INVOKESTATIC => 184u8,
        OpCode::INVOKEINTERFACE => 185u8,
        OpCode::INVOKEDYNAMIC => 186u8,
        OpCode::NEW => 187u8,
        OpCode::NEWARRAY => 188u8,
        OpCode::ANEWARRAY => 189u8,
        OpCode::ARRAYLENGTH => 190u8,
        OpCode::ATHROW => 191u8,
        OpCode::CHECKCAST => 192u8,
        OpCode::INSTANCEOF => 193u8,
        OpCode::MONITORENTER => 194u8,
        OpCode::MONITOREXIT => 195u8,
        OpCode::WIDE => 196u8,
        OpCode::MULTIANEWARRAY => 197u8,
        OpCode::IFNULL => 198u8,
        OpCode::IFNONNULL => 199u8,
        OpCode::GOTOW => 200u8,
        OpCode::JSRW => 201u8,
        OpCode::BREAKPOINT => 202u8,
        OpCode::IMPDEP1 => 254u8,
        OpCode::IMPDEP2 => 255u8,
        OpCode::UNKNOWN => 203u8,
    }
}

impl OpCode {
    /// Decodes an opcode byte.
    pub fn from_byte(b: u8) -> (op: OpCode)
        ensures
            op == opcode_of(b),
    {
        match b {
            0 => OpCode::NOP,
            1 => OpCode::ACONSTNULL,
            2 => OpCode::ICONSTM1,
            3 => OpCode::ICONST0,
            4 => OpCode::ICONST1,
            5 => OpCode::ICONST2,
            6 => OpCode::ICONST3,
            7 => OpCode::ICONST4,
            8 => OpCode::ICONST5,
            9 => OpCode::LCONST0,
            10 => OpCode::LCONST1,
            11 => OpCode::FCONST0,
            12 => OpCode::FCONST1,
            13 => OpCode::FCONST2,
            14 => OpCode::DCONST0,
            15 => OpCode::DCONST1,
            16 => OpCode::BIPUSH,
            17 => OpCode::SIPUSH,
            18 => OpCode::LDC,
            19 => OpCode::LDCW,
            20 => OpCode::LDC2W,
            21 => OpCode::ILOAD,
            22 => OpCode::LLOAD,
            23 => OpCode::FLOAD,
            24 => OpCode::DLOAD,
            25 => OpCode::ALOAD,
            26 => OpCode::ILOAD0,
            27 => OpCode::ILOAD1,
            28 => OpCode::ILOAD2,
            29 => OpCode::ILOAD3,
            30 => OpCode::LLOAD0,
            31 => OpCode::LLOAD1,
            32 => OpCode::LLOAD2,
            33 => OpCode::LLOAD3,
            34 => OpCode::FLOAD0,
            35 => OpCode::FLOAD1,
            36 => OpCode::FLOAD2,
            37 => OpCode::FLOAD3,
            38 => OpCode::DLOAD0,
            39 => OpCode::DLOAD1,
            40 => OpCode::DLOAD2,
            41 => OpCode::DLOAD3,
            42 => OpCode::ALOAD0,
            43 => OpCode::ALOAD1,
            44 => OpCode::ALOAD2,
            45 => OpCode::ALOAD3,
            46 => OpCode::IALOAD,
            47 => OpCode::LALOAD,
            48 => OpCode::FALOAD,
            49 => OpCode::DALOAD,
            50 => OpCode::AALOAD,
            51 => OpCode::BALOAD,
            52 => OpCode::CALOAD,
            53 => OpCode::SALOAD,
            54 => OpCode::ISTORE,
            55 => OpCode::LSTORE,
            56 => OpCode::FSTORE,
            57 => OpCode::DSTORE,
            58 => OpCode::ASTORE,
            59 => OpCode::ISTORE0,
            60 => OpCode::ISTORE1,
            61 => OpCode::ISTORE2,
            62 => OpCode::ISTORE3,
            63 => OpCode::LSTORE0,
            64 => OpCode::LSTORE1,
            65 => OpCode::LSTORE2,
            66 => OpCode::LSTORE3,
            67 => OpCode::FSTORE0,
            68 => OpCode::FSTORE1,
            69 => OpCode::FSTORE2,
            70 => OpCode::FSTORE3,
            71 => OpCode::DSTORE0,
            72 => OpCode::DSTORE1,
            73 => OpCode::DSTORE2,
            74 => OpCode::DSTORE3,
            75 => OpCode::ASTORE0,
            76 => OpCode::ASTORE1,
            77 => OpCode::ASTORE2,
            78 => OpCode::ASTORE3,
            79 => OpCode::IASTORE,
            80 => OpCode::LASTORE,
            81 => OpCode::FASTORE,
            82 => OpCode::DASTORE,
            83 => OpCode::AASTORE,
            84 => OpCode::BASTORE,
            85 => OpCode::CASTORE,
            86 => OpCode::SASTORE,
            87 => OpCode::POP,
            88 => OpCode::POP2,
            89 => OpCode::DUP,
            90 => OpCode::DUPX1,
            91 => OpCode::DUPX2,
            92 => OpCode::DUP2,
            93 => OpCode::DUP2X1,
            94 => OpCode::DUP2X2,
            95 => OpCode::SWAP,
            96 => OpCode::IADD,
            97 => OpCode::LADD,
            98 => OpCode::FADD,
            99 => OpCode::DADD,
            100 => OpCode::ISUB,
            101 => OpCode::LSUB,
            102 => OpCode::FSUB,
            103 => OpCode::DSUB,
            104 => OpCode::IMUL,
            105 => OpCode::LMUL,
            106 => OpCode::FMUL,
            107 => OpCode::DMUL,
            108 => OpCode::IDIV,
            109 => OpCode::LDIV,
            110 => OpCode::FDIV,
            111 => OpCode::DDIV,
            112 => OpCode::IREM,
            113 => OpCode::LREM,
            114 => OpCode::FREM,
            115 => OpCode::DREM,
            116 => OpCode::INEG,
            117 => OpCode::LNEG,
            118 => OpCode::FNEG,
            119 => OpCode::DNEG,
            120 => OpCode::ISHL,
            121 => OpCode::LSHL,
            122 => OpCode::ISHR,
            123 => OpCode::LSHR,
            124 => OpCode::IUSHR,
            125 => OpCode::LUSHR,
            126 => OpCode::IAND,
            127 => OpCode::LAND,
            128 => OpCode::IOR,
            129 => OpCode::LOR,
            130 => OpCode::IXOR,
            131 => OpCode::LXOR,
            132 => OpCode::IINC,
            133 => OpCode::I2L,
            134 => OpCode::I2F,
            135 => OpCode::I2D,
            136 => OpCode::L2I,
            137 => OpCode::L2F,
            138 => OpCode::L2D,
            139 => OpCode::F2I,
            140 => OpCode::F2L,
            141 => OpCode::F2D,
            142 => OpCode::D2I,
            143 => OpCode::D2L,
            144 => OpCode::D2F,
            145 => OpCode::I2B,
            146 => OpCode::I2C,
            147 => OpCode::I2S,
            148 => OpCode::LCMP,
            149 => OpCode::FCMPL,
            150 => OpCode::FCMPG,
            151 => OpCode::DCMPL,
            152 => OpCode::DCMPG,
            153 => OpCode::IFEQ,
            154 => OpCode::IFNE,
            155 => OpCode::IFLT,
            156 => OpCode::IFGE,
            157 => OpCode::IFGT,
            158 => OpCode::IFLE,
            159 => OpCode::IFICMPEQ,
            160 => OpCode::IFICMPNE,
            161 => OpCode::IFICMPLT,
            162 => OpCode::IFICMPGE,
            163 => OpCode::IFICMPGT,
            164 => OpCode::IFICMPLE,
            165 => OpCode::IFACMPEQ,
            166 => OpCode::IFACMPNE,
            167 => OpCode::GOTO,
            168 => OpCode::JSR,
            169 => OpCode::RET,
            170 => OpCode::TABLESWITCH,
            171 => OpCode::LOOKUPSWITCH,
            172 => OpCode::IRETURN,
            173 => OpCode::LRETURN,
            174 => OpCode::FRETURN,
            175 => OpCode::DRETURN,
            176 => OpCode::ARETURN,
            177 => OpCode::RETURN,
            178 => OpCode::GETSTATIC,
            179 => OpCode::PUTSTATIC,
            180 => OpCode::GETFIELD,
            181 => OpCode::PUTFIELD,
            182 => OpCode::INVOKEVIRTUAL,
            183 => OpCode::INVOKESPECIAL,
            184 => OpCode::INVOKESTATIC,
            185 => OpCode::INVOKEINTERFACE,
            186 => OpCode::INVOKEDYNAMIC,
            187 => OpCode::NEW,
            188 => OpCode::NEWARRAY,
            189 => OpCode::ANEWARRAY,
            190 => OpCode::ARRAYLENGTH,
            191 => OpCode::ATHROW,
            192 => OpCode::CHECKCAST,
            193 => OpCode::INSTANCEOF,
            194 => OpCode::MONITORENTER,
            195 => OpCode::MONITOREXIT,
            196 => OpCode::WIDE,
            197 => OpCode::MULTIANEWARRAY,
            198 => OpCode::IFNULL,
            199 => OpCode::IFNONNULL,
            200 => OpCode::GOTOW,
            201 => OpCode::JSRW,
            202 => OpCode::BREAKPOINT,
            254 => OpCode::IMPDEP1,
            255 => OpCode::IMPDEP2,
            _ => OpCode::UNKNOWN,
        }
    }

    /// The opcode byte of an instruction; `None` for `UNKNOWN`.
    pub fn to_byte(self) -> (b: Option<u8>)
        ensures
            self == OpCode::UNKNOWN ==> b is None,
            self != OpCode::UNKNOWN ==> b == Some(byte_of(self)),
    {
        match self {
            OpCode::NOP => Some(0),
            OpCode::ACONSTNULL => Some(1),
            OpCode::ICONSTM1 => Some(2),
            OpCode::ICONST0 => Some(3),
            OpCode::ICONST1 => Some(4),
            OpCode::ICONST2 => Some(5),
            OpCode::ICONST3 => Some(6),
            OpCode::ICONST4 => Some(7),
            OpCode::ICONST5 => Some(8),
            OpCode::LCONST0 => Some(9),
            OpCode::LCONST1 => Some(10),
            OpCode::FCONST0 => Some(11),
            OpCode::FCONST1 => Some(12),
            OpCode::FCONST2 => Some(13),
            OpCode::DCONST0 => Some(14),
            OpCode::DCONST1 => Some(15),
            OpCode::BIPUSH => Some(16),
            OpCode::SIPUSH => Some(17),
            OpCode::LDC => Some(18),
            OpCode::LDCW => Some(19),
            OpCode::LDC2W => Some(20),
            OpCode::ILOAD => Some(21),
            OpCode::LLOAD => Some(22),
            OpCode::FLOAD => Some(23),
            OpCode::DLOAD => Some(24),
            OpCode::ALOAD => Some(25),
            OpCode::ILOAD0 => Some(26),
            OpCode::ILOAD1 => Some(27),
            OpCode::ILOAD2 => Some(28),
            OpCode::ILOAD3 => Some(29),
            OpCode::LLOAD0 => Some(30),
            OpCode::LLOAD1 => Some(31),
            OpCode::LLOAD2 => Some(32),
            OpCode::LLOAD3 => Some(33),
            OpCode::FLOAD0 => Some(34),
            OpCode::FLOAD1 => Some(35),
            OpCode::FLOAD2 => Some(36),
            OpCode::FLOAD3 => Some(37),
            OpCode::DLOAD0 => Some(38),
            OpCode::DLOAD1 => Some(39),
            OpCode::DLOAD2 => Some(40),
            OpCode::DLOAD3 => Some(41),
            OpCode::ALOAD0 => Some(42),
            OpCode::ALOAD1 => Some(43),
            OpCode::ALOAD2 => Some(44),
            OpCode::ALOAD3 => Some(45),
            OpCode::IALOAD => Some(46),
            OpCode::LALOAD => Some(47),
            OpCode::FALOAD => Some(48),
            OpCode::DALOAD => Some(49),
            OpCode::AALOAD => Some(50),
            OpCode::BALOAD => Some(51),
            OpCode::CALOAD => Some(52),
            OpCode::SALOAD => Some(53),
            OpCode::ISTORE => Some(54),
            OpCode::LSTORE => Some(55),
            OpCode::FSTORE => Some(56),
            OpCode::DSTORE => Some(57),
            OpCode::ASTORE => Some(58),
            OpCode::ISTORE0 => Some(59),
            OpCode::ISTORE1 => Some(60),
            OpCode::ISTORE2 => Some(61),
            OpCode::ISTORE3 => Some(62),
            OpCode::LSTORE0 => Some(63),
            OpCode::LSTORE1 => Some(64),
            OpCode::LSTORE2 => Some(65),
            OpCode::LSTORE3 => Some(66),
            OpCode::FSTORE0 => Some(67),
            OpCode::FSTORE1 => Some(68),
            OpCode::FSTORE2 => Some(69),
            OpCode::FSTORE3 => Some(70),
            OpCode::DSTORE0 => Some(71),
            OpCode::DSTORE1 => Some(72),
            OpCode::DSTORE2 => Some(73),
            OpCode::DSTORE3 => Some(74),
            OpCode::ASTORE0 => Some(75),
            OpCode::ASTORE1 => Some(76),
            OpCode::ASTORE2 => Some(77),
            OpCode::ASTORE3 => Some(78),
            OpCode::IASTORE => Some(79),
            OpCode::LASTORE => Some(80),
            OpCode::FASTORE => Some(81),
            OpCode::DASTORE => Some(82),
            OpCode::AASTORE => Some(83),
            OpCode::BASTORE => Some(84),
            OpCode::CASTORE => Some(85),
            OpCode::SASTORE => Some(86),
            OpCode::POP => Some(87),
            OpCode::POP2 => Some(88),
            OpCode::DUP => Some(89),
            OpCode::DUPX1 => Some(90),
            OpCode::DUPX2 => Some(91),
            OpCode::DUP2 => Some(92),
            OpCode::DUP2X1 => Some(93),
            OpCode::DUP2X2 => Some(94),
            OpCode::SWAP => Some(95),
            OpCode::IADD => Some(96),
            OpCode::LADD => Some(97),
            OpCode::FADD => Some(98),
            OpCode::DADD => Some(99),
            OpCode::ISUB => Some(100),
            OpCode::LSUB => Some(101),
            OpCode::FSUB => Some(102),
            OpCode::DSUB => Some(103),
            OpCode::IMUL => Some(104),
            OpCode::LMUL => Some(105),
            OpCode::FMUL => Some(106),
            OpCode::DMUL => Some(107),
            OpCode::IDIV => Some(108),
            OpCode::LDIV => Some(109),
            OpCode::FDIV => Some(110),
            OpCode::DDIV => Some(111),
            OpCode::IREM => Some(112),
            OpCode::LREM => Some(113),
            OpCode::FREM => Some(114),
            OpCode::DREM => Some(115),
            OpCode::INEG => Some(116),
            OpCode::LNEG => Some(117),
            OpCode::FNEG => Some(118),
            OpCode::DNEG => Some(119),
            OpCode::ISHL => Some(120),
            OpCode::LSHL => Some(121),
            OpCode::ISHR => Some(122),
            OpCode::LSHR => Some(123),
            OpCode::IUSHR => Some(124),
            OpCode::LUSHR => Some(125),
            OpCode::IAND => Some(126),
            OpCode::LAND => Some(127),
            OpCode::IOR => Some(128),
            OpCode::LOR => Some(129),
            OpCode::IXOR => Some(130),
            OpCode::LXOR => Some(131),
            OpCode::IINC => Some(132),
            OpCode::I2L => Some(133),
            OpCode::I2F => Some(134),
            OpCode::I2D => Some(135),
            OpCode::L2I => Some(136),
            OpCode::L2F => Some(137),
            OpCode::L2D => Some(138),
            OpCode::F2I => Some(139),
            OpCode::F2L => Some(140),
            OpCode::F2D => Some(141),
            OpCode::D2I => Some(142),
            OpCode::D2L => Some(143),
            OpCode::D2F => Some(144),
            OpCode::I2B => Some(145),
            OpCode::I2C => Some(146),
            OpCode::I2S => Some(147),
            OpCode::LCMP => Some(148),
            OpCode::FCMPL => Some(149),
            OpCode::FCMPG => Some(150),
            OpCode::DCMPL => Some(151),
            OpCode::DCMPG => Some(152),
            OpCode::IFEQ => Some(153),
            OpCode::IFNE => Some(154),
            OpCode::IFLT => Some(155),
            OpCode::IFGE => Some(156),
            OpCode::IFGT => Some(157),
            OpCode::IFLE => Some(158),
            OpCode::IFICMPEQ => Some(159),
            OpCode::IFICMPNE => Some(160),
            OpCode::IFICMPLT => Some(161),
            OpCode::IFICMPGE => Some(162),
            OpCode::IFICMPGT => Some(163),
            OpCode::IFICMPLE => Some(164),
            OpCode::IFACMPEQ => Some(165),
            OpCode::IFACMPNE => Some(166),
            OpCode::GOTO => Some(167),
            OpCode::JSR => Some(168),
            OpCode::RET => Some(169),
            OpCode::TABLESWITCH => Some(170),
            OpCode::LOOKUPSWITCH => Some(171),
            OpCode::IRETURN => Some(172),
            OpCode::LRETURN => Some(173),
            OpCode::FRETURN => Some(174),
            OpCode::DRETURN => Some(175),
            OpCode::ARETURN => Some(176),
            OpCode::RETURN => Some(177),
            OpCode::GETSTATIC => Some(178),
            OpCode::PUTSTATIC => Some(179),
            OpCode::GETFIELD => Some(180),
            OpCode::PUTFIELD => Some(181),
            OpCode::INVOKEVIRTUAL => Some(182),
            OpCode::INVOKESPECIAL => Some(183),
            OpCode::INVOKESTATIC => Some(184),
            OpCode::INVOKEINTERFACE => Some(185),
            OpCode::INVOKEDYNAMIC => Some(186),
            OpCode::NEW => Some(187),
            OpCode::NEWARRAY => Some(188),
            OpCode::ANEWARRAY => Some(189),
            OpCode::ARRAYLENGTH => Some(190),
            OpCode::ATHROW => Some(191),
            OpCode::CHECKCAST => Some(192),
            OpCode::INSTANCEOF => Some(193),
            OpCode::MONITORENTER => Some(194),
            OpCode::MONITOREXIT => Some(195),
            OpCode::WIDE => Some(196),
            OpCode::MULTIANEWARRAY => Some(197),
            OpCode::IFNULL => Some(198),
            OpCode::IFNONNULL => Some(199),
            OpCode::GOTOW => Some(200),
            OpCode::JSRW => Some(201),
            OpCode::BREAKPOINT => Some(202),
            OpCode::IMPDEP1 => Some(254),
            OpCode::IMPDEP2 => Some(255),
            OpCode::UNKNOWN => None,
        }
    }
}

/// Decoding the byte of a known instruction gives that instruction back.
pub proof fn lemma_decode_encode(op: OpCode)
    requires
        op != OpCode::UNKNOWN,
    ensures
        opcode_of(byte_of(op)) == op,
{
}

/// A byte that decodes to a known instruction is that instruction's byte.
pub proof fn lemma_encode_decode(b: u8)
    requires
        opcode_of(b) != OpCode::UNKNOWN,
    ensures
        byte_of(opcode_of(b)) == b,
{
}

} // verus!
