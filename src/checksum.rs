use vstd::prelude::*;

verus! {

/// One round of long division by the generator polynomial x^16 + x^12 + x^5 + 1
/// (0x1021) on a 16-bit register, most significant bit first.
pub open spec fn poly_round(c: u16) -> u16 {
    if c & 0x8000 != 0 {
        (c << 1u16) ^ 0x1021u16
    } else {
        c << 1u16
    }
}

/// Entry `i` of the CRC-16/XMODEM lookup table: the byte `i` placed in the high half
/// of the register and carried through eight rounds of the polynomial.
#[verifier::opaque]
pub open spec fn crc16_table_spec(i: u8) -> u16 {
    let c0 = (i as u16) << 8u16;
    let c1 = poly_round(c0);
    let c2 = poly_round(c1);
    let c3 = poly_round(c2);
    let c4 = poly_round(c3);
    let c5 = poly_round(c4);
    let c6 = poly_round(c5);
    let c7 = poly_round(c6);
    poly_round(c7)
}

/// The register after one more byte: the table entry selected by the byte and the
/// register's high byte, XORed into the register shifted up by eight bits.
pub open spec fn crc16_update(crc: u16, b: u8) -> u16 {
    (crc << 8u16) ^ crc16_table_spec(b ^ ((crc >> 8u16) as u8))
}

/// The register after the first `n` bytes of `s`, starting from `init`.
pub open spec fn crc16_prefix(s: Seq<u8>, n: nat, init: u16) -> u16
    decreases n,
{
    if n == 0 {
        init
    } else {
        crc16_update(crc16_prefix(s, (n - 1) as nat, init), s[n - 1])
    }
}

/// CRC-16/XMODEM of the whole of `s`, starting from `init`.
pub open spec fn crc16_spec(s: Seq<u8>, init: u16) -> u16 {
    crc16_prefix(s, s.len(), init)
}

/// The precomputed table agrees with its definition at every index.
proof fn lemma_crc16_table_values()
    by (bit_vector)
    ensures
        crc16_table_spec(0u8) == 0x0000u16,
        crc16_table_spec(1u8) == 0x1021u16,
        crc16_table_spec(2u8) == 0x2042u16,
        crc16_table_spec(3u8) == 0x3063u16,
        crc16_table_spec(4u8) == 0x4084u16,
        crc16_table_spec(5u8) == 0x50a5u16,
        crc16_table_spec(6u8) == 0x60c6u16,
        crc16_table_spec(7u8) == 0x70e7u16,
        crc16_table_spec(8u8) == 0x8108u16,
        crc16_table_spec(9u8) == 0x9129u16,
        crc16_table_spec(10u8) == 0xa14au16,
        crc16_table_spec(11u8) == 0xb16bu16,
        crc16_table_spec(12u8) == 0xc18cu16,
        crc16_table_spec(13u8) == 0xd1adu16,
        crc16_table_spec(14u8) == 0xe1ceu16,
        crc16_table_spec(15u8) == 0xf1efu16,
        crc16_table_spec(16u8) == 0x1231u16,
        crc16_table_spec(17u8) == 0x0210u16,
        crc16_table_spec(18u8) == 0x3273u16,
        crc16_table_spec(19u8) == 0x2252u16,
        crc16_table_spec(20u8) == 0x52b5u16,
        crc16_table_spec(21u8) == 0x4294u16,
        crc16_table_spec(22u8) == 0x72f7u16,
        crc16_table_spec(23u8) == 0x62d6u16,
        crc16_table_spec(24u8) == 0x9339u16,
        crc16_table_spec(25u8) == 0x8318u16,
        crc16_table_spec(26u8) == 0xb37bu16,
        crc16_table_spec(27u8) == 0xa35au16,
        crc16_table_spec(28u8) == 0xd3bdu16,
        crc16_table_spec(29u8) == 0xc39cu16,
        crc16_table_spec(30u8) == 0xf3ffu16,
        crc16_table_spec(31u8) == 0xe3deu16,
        crc16_table_spec(32u8) == 0x2462u16,
        crc16_table_spec(33u8) == 0x3443u16,
        crc16_table_spec(34u8) == 0x0420u16,
        crc16_table_spec(35u8) == 0x1401u16,
        crc16_table_spec(36u8) == 0x64e6u16,
        crc16_table_spec(37u8) == 0x74c7u16,
        crc16_table_spec(38u8) == 0x44a4u16,
        crc16_table_spec(39u8) == 0x5485u16,
        crc16_table_spec(40u8) == 0xa56au16,
        crc16_table_spec(41u8) == 0xb54bu16,
        crc16_table_spec(42u8) == 0x8528u16,
        crc16_table_spec(43u8) == 0x9509u16,
        crc16_table_spec(44u8) == 0xe5eeu16,
        crc16_table_spec(45u8) == 0xf5cfu16,
        crc16_table_spec(46u8) == 0xc5acu16,
        crc16_table_spec(47u8) == 0xd58du16,
        crc16_table_spec(48u8) == 0x3653u16,
        crc16_table_spec(49u8) == 0x2672u16,
        crc16_table_spec(50u8) == 0x1611u16,
        crc16_table_spec(51u8) == 0x0630u16,
        crc16_table_spec(52u8) == 0x76d7u16,
        crc16_table_spec(53u8) == 0x66f6u16,
        crc16_table_spec(54u8) == 0x5695u16,
        crc16_table_spec(55u8) == 0x46b4u16,
        crc16_table_spec(56u8) == 0xb75bu16,
        crc16_table_spec(57u8) == 0xa77au16,
        crc16_table_spec(58u8) == 0x9719u16,
        crc16_table_spec(59u8) == 0x8738u16,
        crc16_table_spec(60u8) == 0xf7dfu16,
        crc16_table_spec(61u8) == 0xe7feu16,
        crc16_table_spec(62u8) == 0xd79du16,
        crc16_table_spec(63u8) == 0xc7bcu16,
        crc16_table_spec(64u8) == 0x48c4u16,
        crc16_table_spec(65u8) == 0x58e5u16,
        crc16_table_spec(66u8) == 0x6886u16,
        crc16_table_spec(67u8) == 0x78a7u16,
        crc16_table_spec(68u8) == 0x0840u16,
        crc16_table_spec(69u8) == 0x1861u16,
        crc16_table_spec(70u8) == 0x2802u16,
        crc16_table_spec(71u8) == 0x3823u16,
        crc16_table_spec(72u8) == 0xc9ccu16,
        crc16_table_spec(73u8) == 0xd9edu16,
        crc16_table_spec(74u8) == 0xe98eu16,
        crc16_table_spec(75u8) == 0xf9afu16,
        crc16_table_spec(76u8) == 0x8948u16,
        crc16_table_spec(77u8) == 0x9969u16,
        crc16_table_spec(78u8) == 0xa90au16,
        crc16_table_spec(79u8) == 0xb92bu16,
        crc16_table_spec(80u8) == 0x5af5u16,
        crc16_table_spec(81u8) == 0x4ad4u16,
        crc16_table_spec(82u8) == 0x7ab7u16,
        crc16_table_spec(83u8) == 0x6a96u16,
        crc16_table_spec(84u8) == 0x1a71u16,
        crc16_table_spec(85u8) == 0x0a50u16,
        crc16_table_spec(86u8) == 0x3a33u16,
        crc16_table_spec(87u8) == 0x2a12u16,
        crc16_table_spec(88u8) == 0xdbfdu16,
        crc16_table_spec(89u8) == 0xcbdcu16,
        crc16_table_spec(90u8) == 0xfbbfu16,
        crc16_table_spec(91u8) == 0xeb9eu16,
        crc16_table_spec(92u8) == 0x9b79u16,
        crc16_table_spec(93u8) == 0x8b58u16,
        crc16_table_spec(94u8) == 0xbb3bu16,
        crc16_table_spec(95u8) == 0xab1au16,
        crc16_table_spec(96u8) == 0x6ca6u16,
        crc16_table_spec(97u8) == 0x7c87u16,
        crc16_table_spec(98u8) == 0x4ce4u16,
        crc16_table_spec(99u8) == 0x5cc5u16,
        crc16_table_spec(100u8) == 0x2c22u16,
        crc16_table_spec(101u8) == 0x3c03u16,
        crc16_table_spec(102u8) == 0x0c60u16,
        crc16_table_spec(103u8) == 0x1c41u16,
        crc16_table_spec(104u8) == 0xedaeu16,
        crc16_table_spec(105u8) == 0xfd8fu16,
        crc16_table_spec(106u8) == 0xcdecu16,
        crc16_table_spec(107u8) == 0xddcdu16,
        crc16_table_spec(108u8) == 0xad2au16,
        crc16_table_spec(109u8) == 0xbd0bu16,
        crc16_table_spec(110u8) == 0x8d68u16,
        crc16_table_spec(111u8) == 0x9d49u16,
        crc16_table_spec(112u8) == 0x7e97u16,
        crc16_table_spec(113u8) == 0x6eb6u16,
        crc16_table_spec(114u8) == 0x5ed5u16,
        crc16_table_spec(115u8) == 0x4ef4u16,
        crc16_table_spec(116u8) == 0x3e13u16,
        crc16_table_spec(117u8) == 0x2e32u16,
        crc16_table_spec(118u8) == 0x1e51u16,
        crc16_table_spec(119u8) == 0x0e70u16,
        crc16_table_spec(120u8) == 0xff9fu16,
        crc16_table_spec(121u8) == 0xefbeu16,
        crc16_table_spec(122u8) == 0xdfddu16,
        crc16_table_spec(123u8) == 0xcffcu16,
        crc16_table_spec(124u8) == 0xbf1bu16,
        crc16_table_spec(125u8) == 0xaf3au16,
        crc16_table_spec(126u8) == 0x9f59u16,
        crc16_table_spec(127u8) == 0x8f78u16,
        crc16_table_spec(128u8) == 0x9188u16,
        crc16_table_spec(129u8) == 0x81a9u16,
        crc16_table_spec(130u8) == 0xb1cau16,
        crc16_table_spec(131u8) == 0xa1ebu16,
        crc16_table_spec(132u8) == 0xd10cu16,
        crc16_table_spec(133u8) == 0xc12du16,
        crc16_table_spec(134u8) == 0xf14eu16,
        crc16_table_spec(135u8) == 0xe16fu16,
        crc16_table_spec(136u8) == 0x1080u16,
        crc16_table_spec(137u8) == 0x00a1u16,
        crc16_table_spec(138u8) == 0x30c2u16,
        crc16_table_spec(139u8) == 0x20e3u16,
        crc16_table_spec(140u8) == 0x5004u16,
        crc16_table_spec(141u8) == 0x4025u16,
        crc16_table_spec(142u8) == 0x7046u16,
        crc16_table_spec(143u8) == 0x6067u16,
        crc16_table_spec(144u8) == 0x83b9u16,
        crc16_table_spec(145u8) == 0x9398u16,
        crc16_table_spec(146u8) == 0xa3fbu16,
        crc16_table_spec(147u8) == 0xb3dau16,
        crc16_table_spec(148u8) == 0xc33du16,
        crc16_table_spec(149u8) == 0xd31cu16,
        crc16_table_spec(150u8) == 0xe37fu16,
        crc16_table_spec(151u8) == 0xf35eu16,
        crc16_table_spec(152u8) == 0x02b1u16,
        crc16_table_spec(153u8) == 0x1290u16,
        crc16_table_spec(154u8) == 0x22f3u16,
        crc16_table_spec(155u8) == 0x32d2u16,
        crc16_table_spec(156u8) == 0x4235u16,
        crc16_table_spec(157u8) == 0x5214u16,
        crc16_table_spec(158u8) == 0x6277u16,
        crc16_table_spec(159u8) == 0x7256u16,
        crc16_table_spec(160u8) == 0xb5eau16,
        crc16_table_spec(161u8) == 0xa5cbu16,
        crc16_table_spec(162u8) == 0x95a8u16,
        crc16_table_spec(163u8) == 0x8589u16,
        crc16_table_spec(164u8) == 0xf56eu16,
        crc16_table_spec(165u8) == 0xe54fu16,
        crc16_table_spec(166u8) == 0xd52cu16,
        crc16_table_spec(167u8) == 0xc50du16,
        crc16_table_spec(168u8) == 0x34e2u16,
        crc16_table_spec(169u8) == 0x24c3u16,
        crc16_table_spec(170u8) == 0x14a0u16,
        crc16_table_spec(171u8) == 0x0481u16,
        crc16_table_spec(172u8) == 0x7466u16,
        crc16_table_spec(173u8) == 0x6447u16,
        crc16_table_spec(174u8) == 0x5424u16,
        crc16_table_spec(175u8) == 0x4405u16,
        crc16_table_spec(176u8) == 0xa7dbu16,
        crc16_table_spec(177u8) == 0xb7fau16,
        crc16_table_spec(178u8) == 0x8799u16,
        crc16_table_spec(179u8) == 0x97b8u16,
        crc16_table_spec(180u8) == 0xe75fu16,
        crc16_table_spec(181u8) == 0xf77eu16,
        crc16_table_spec(182u8) == 0xc71du16,
        crc16_table_spec(183u8) == 0xd73cu16,
        crc16_table_spec(184u8) == 0x26d3u16,
        crc16_table_spec(185u8) == 0x36f2u16,
        crc16_table_spec(186u8) == 0x0691u16,
        crc16_table_spec(187u8) == 0x16b0u16,
        crc16_table_spec(188u8) == 0x6657u16,
        crc16_table_spec(189u8) == 0x7676u16,
        crc16_table_spec(190u8) == 0x4615u16,
        crc16_table_spec(191u8) == 0x5634u16,
        crc16_table_spec(192u8) == 0xd94cu16,
        crc16_table_spec(193u8) == 0xc96du16,
        crc16_table_spec(194u8) == 0xf90eu16,
        crc16_table_spec(195u8) == 0xe92fu16,
        crc16_table_spec(196u8) == 0x99c8u16,
        crc16_table_spec(197u8) == 0x89e9u16,
        crc16_table_spec(198u8) == 0xb98au16,
        crc16_table_spec(199u8) == 0xa9abu16,
        crc16_table_spec(200u8) == 0x5844u16,
        crc16_table_spec(201u8) == 0x4865u16,
        crc16_table_spec(202u8) == 0x7806u16,
        crc16_table_spec(203u8) == 0x6827u16,
        crc16_table_spec(204u8) == 0x18c0u16,
        crc16_table_spec(205u8) == 0x08e1u16,
        crc16_table_spec(206u8) == 0x3882u16,
        crc16_table_spec(207u8) == 0x28a3u16,
        crc16_table_spec(208u8) == 0xcb7du16,
        crc16_table_spec(209u8) == 0xdb5cu16,
        crc16_table_spec(210u8) == 0xeb3fu16,
        crc16_table_spec(211u8) == 0xfb1eu16,
        crc16_table_spec(212u8) == 0x8bf9u16,
        crc16_table_spec(213u8) == 0x9bd8u16,
        crc16_table_spec(214u8) == 0xabbbu16,
        crc16_table_spec(215u8) == 0xbb9au16,
        crc16_table_spec(216u8) == 0x4a75u16,
        crc16_table_spec(217u8) == 0x5a54u16,
        crc16_table_spec(218u8) == 0x6a37u16,
        crc16_table_spec(219u8) == 0x7a16u16,
        crc16_table_spec(220u8) == 0x0af1u16,
        crc16_table_spec(221u8) == 0x1ad0u16,
        crc16_table_spec(222u8) == 0x2ab3u16,
        crc16_table_spec(223u8) == 0x3a92u16,
        crc16_table_spec(224u8) == 0xfd2eu16,
        crc16_table_spec(225u8) == 0xed0fu16,
        crc16_table_spec(226u8) == 0xdd6cu16,
        crc16_table_spec(227u8) == 0xcd4du16,
        crc16_table_spec(228u8) == 0xbdaau16,
        crc16_table_spec(229u8) == 0xad8bu16,
        crc16_table_spec(230u8) == 0x9de8u16,
        crc16_table_spec(231u8) == 0x8dc9u16,
        crc16_table_spec(232u8) == 0x7c26u16,
        crc16_table_spec(233u8) == 0x6c07u16,
        crc16_table_spec(234u8) == 0x5c64u16,
        crc16_table_spec(235u8) == 0x4c45u16,
        crc16_table_spec(236u8) == 0x3ca2u16,
        crc16_table_spec(237u8) == 0x2c83u16,
        crc16_table_spec(238u8) == 0x1ce0u16,
        crc16_table_spec(239u8) == 0x0cc1u16,
        crc16_table_spec(240u8) == 0xef1fu16,
        crc16_table_spec(241u8) == 0xff3eu16,
        crc16_table_spec(242u8) == 0xcf5du16,
        crc16_table_spec(243u8) == 0xdf7cu16,
        crc16_table_spec(244u8) == 0xaf9bu16,
        crc16_table_spec(245u8) == 0xbfbau16,
        crc16_table_spec(246u8) == 0x8fd9u16,
        crc16_table_spec(247u8) == 0x9ff8u16,
        crc16_table_spec(248u8) == 0x6e17u16,
        crc16_table_spec(249u8) == 0x7e36u16,
        crc16_table_spec(250u8) == 0x4e55u16,
        crc16_table_spec(251u8) == 0x5e74u16,
        crc16_table_spec(252u8) == 0x2e93u16,
        crc16_table_spec(253u8) == 0x3eb2u16,
        crc16_table_spec(254u8) == 0x0ed1u16,
        crc16_table_spec(255u8) == 0x1ef0u16,
{
}

/// Looks up entry `i` of the precomputed CRC-16/XMODEM table.
fn crc16_table(i: u8) -> (r: u16)
    ensures
        r == crc16_table_spec(i),
{
    proof {
        lemma_crc16_table_values();
    }
    match i {
        0x00 => 0x0000,
        0x01 => 0x1021,
        0x02 => 0x2042,
        0x03 => 0x3063,
        0x04 => 0x4084,
        0x05 => 0x50a5,
        0x06 => 0x60c6,
        0x07 => 0x70e7,
        0x08 => 0x8108,
        0x09 => 0x9129,
        0x0a => 0xa14a,
        0x0b => 0xb16b,
        0x0c => 0xc18c,
        0x0d => 0xd1ad,
        0x0e => 0xe1ce,
        0x0f => 0xf1ef,
        0x10 => 0x1231,
        0x11 => 0x0210,
        0x12 => 0x3273,
        0x13 => 0x2252,
        0x14 => 0x52b5,
        0x15 => 0x4294,
        0x16 => 0x72f7,
        0x17 => 0x62d6,
        0x18 => 0x9339,
        0x19 => 0x8318,
        0x1a => 0xb37b,
        0x1b => 0xa35a,
        0x1c => 0xd3bd,
        0x1d => 0xc39c,
        0x1e => 0xf3ff,
        0x1f => 0xe3de,
        0x20 => 0x2462,
        0x21 => 0x3443,
        0x22 => 0x0420,
        0x23 => 0x1401,
        0x24 => 0x64e6,
        0x25 => 0x74c7,
        0x26 => 0x44a4,
        0x27 => 0x5485,
        0x28 => 0xa56a,
        0x29 => 0xb54b,
        0x2a => 0x8528,
        0x2b => 0x9509,
        0x2c => 0xe5ee,
        0x2d => 0xf5cf,
        0x2e => 0xc5ac,
        0x2f => 0xd58d,
        0x30 => 0x3653,
        0x31 => 0x2672,
        0x32 => 0x1611,
        0x33 => 0x0630,
        0x34 => 0x76d7,
        0x35 => 0x66f6,
        0x36 => 0x5695,
        0x37 => 0x46b4,
        0x38 => 0xb75b,
        0x39 => 0xa77a,
        0x3a => 0x9719,
        0x3b => 0x8738,
        0x3c => 0xf7df,
        0x3d => 0xe7fe,
        0x3e => 0xd79d,
        0x3f => 0xc7bc,
        0x40 => 0x48c4,
        0x41 => 0x58e5,
        0x42 => 0x6886,
        0x43 => 0x78a7,
        0x44 => 0x0840,
        0x45 => 0x1861,
        0x46 => 0x2802,
        0x47 => 0x3823,
        0x48 => 0xc9cc,
        0x49 => 0xd9ed,
        0x4a => 0xe98e,
        0x4b => 0xf9af,
        0x4c => 0x8948,
        0x4d => 0x9969,
        0x4e => 0xa90a,
        0x4f => 0xb92b,
        0x50 => 0x5af5,
        0x51 => 0x4ad4,
        0x52 => 0x7ab7,
        0x53 => 0x6a96,
        0x54 => 0x1a71,
        0x55 => 0x0a50,
        0x56 => 0x3a33,
        0x57 => 0x2a12,
        0x58 => 0xdbfd,
        0x59 => 0xcbdc,
        0x5a => 0xfbbf,
        0x5b => 0xeb9e,
        0x5c => 0x9b79,
        0x5d => 0x8b58,
        0x5e => 0xbb3b,
        0x5f => 0xab1a,
        0x60 => 0x6ca6,
        0x61 => 0x7c87,
        0x62 => 0x4ce4,
        0x63 => 0x5cc5,
        0x64 => 0x2c22,
        0x65 => 0x3c03,
        0x66 => 0x0c60,
        0x67 => 0x1c41,
        0x68 => 0xedae,
        0x69 => 0xfd8f,
        0x6a => 0xcdec,
        0x6b => 0xddcd,
        0x6c => 0xad2a,
        0x6d => 0xbd0b,
        0x6e => 0x8d68,
        0x6f => 0x9d49,
        0x70 => 0x7e97,
        0x71 => 0x6eb6,
        0x72 => 0x5ed5,
        0x73 => 0x4ef4,
        0x74 => 0x3e13,
        0x75 => 0x2e32,
        0x76 => 0x1e51,
        0x77 => 0x0e70,
        0x78 => 0xff9f,
        0x79 => 0xefbe,
        0x7a => 0xdfdd,
        0x7b => 0xcffc,
        0x7c => 0xbf1b,
        0x7d => 0xaf3a,
        0x7e => 0x9f59,
        0x7f => 0x8f78,
        0x80 => 0x9188,
        0x81 => 0x81a9,
        0x82 => 0xb1ca,
        0x83 => 0xa1eb,
        0x84 => 0xd10c,
        0x85 => 0xc12d,
        0x86 => 0xf14e,
        0x87 => 0xe16f,
        0x88 => 0x1080,
        0x89 => 0x00a1,
        0x8a => 0x30c2,
        0x8b => 0x20e3,
        0x8c => 0x5004,
        0x8d => 0x4025,
        0x8e => 0x7046,
        0x8f => 0x6067,
        0x90 => 0x83b9,
        0x91 => 0x9398,
        0x92 => 0xa3fb,
        0x93 => 0xb3da,
        0x94 => 0xc33d,
        0x95 => 0xd31c,
        0x96 => 0xe37f,
        0x97 => 0xf35e,
        0x98 => 0x02b1,
        0x99 => 0x1290,
        0x9a => 0x22f3,
        0x9b => 0x32d2,
        0x9c => 0x4235,
        0x9d => 0x5214,
        0x9e => 0x6277,
        0x9f => 0x7256,
        0xa0 => 0xb5ea,
        0xa1 => 0xa5cb,
        0xa2 => 0x95a8,
        0xa3 => 0x8589,
        0xa4 => 0xf56e,
        0xa5 => 0xe54f,
        0xa6 => 0xd52c,
        0xa7 => 0xc50d,
        0xa8 => 0x34e2,
        0xa9 => 0x24c3,
        0xaa => 0x14a0,
        0xab => 0x0481,
        0xac => 0x7466,
        0xad => 0x6447,
        0xae => 0x5424,
        0xaf => 0x4405,
        0xb0 => 0xa7db,
        0xb1 => 0xb7fa,
        0xb2 => 0x8799,
        0xb3 => 0x97b8,
        0xb4 => 0xe75f,
        0xb5 => 0xf77e,
        0xb6 => 0xc71d,
        0xb7 => 0xd73c,
        0xb8 => 0x26d3,
        0xb9 => 0x36f2,
        0xba => 0x0691,
        0xbb => 0x16b0,
        0xbc => 0x6657,
        0xbd => 0x7676,
        0xbe => 0x4615,
        0xbf => 0x5634,
        0xc0 => 0xd94c,
        0xc1 => 0xc96d,
        0xc2 => 0xf90e,
        0xc3 => 0xe92f,
        0xc4 => 0x99c8,
        0xc5 => 0x89e9,
        0xc6 => 0xb98a,
        0xc7 => 0xa9ab,
        0xc8 => 0x5844,
        0xc9 => 0x4865,
        0xca => 0x7806,
        0xcb => 0x6827,
        0xcc => 0x18c0,
        0xcd => 0x08e1,
        0xce => 0x3882,
        0xcf => 0x28a3,
        0xd0 => 0xcb7d,
        0xd1 => 0xdb5c,
        0xd2 => 0xeb3f,
        0xd3 => 0xfb1e,
        0xd4 => 0x8bf9,
        0xd5 => 0x9bd8,
        0xd6 => 0xabbb,
        0xd7 => 0xbb9a,
        0xd8 => 0x4a75,
        0xd9 => 0x5a54,
        0xda => 0x6a37,
        0xdb => 0x7a16,
        0xdc => 0x0af1,
        0xdd => 0x1ad0,
        0xde => 0x2ab3,
        0xdf => 0x3a92,
        0xe0 => 0xfd2e,
        0xe1 => 0xed0f,
        0xe2 => 0xdd6c,
        0xe3 => 0xcd4d,
        0xe4 => 0xbdaa,
        0xe5 => 0xad8b,
        0xe6 => 0x9de8,
        0xe7 => 0x8dc9,
        0xe8 => 0x7c26,
        0xe9 => 0x6c07,
        0xea => 0x5c64,
        0xeb => 0x4c45,
        0xec => 0x3ca2,
        0xed => 0x2c83,
        0xee => 0x1ce0,
        0xef => 0x0cc1,
        0xf0 => 0xef1f,
        0xf1 => 0xff3e,
        0xf2 => 0xcf5d,
        0xf3 => 0xdf7c,
        0xf4 => 0xaf9b,
        0xf5 => 0xbfba,
        0xf6 => 0x8fd9,
        0xf7 => 0x9ff8,
        0xf8 => 0x6e17,
        0xf9 => 0x7e36,
        0xfa => 0x4e55,
        0xfb => 0x5e74,
        0xfc => 0x2e93,
        0xfd => 0x3eb2,
        0xfe => 0x0ed1,
        0xff => 0x1ef0,
    }
}

/// CRC-16/XMODEM of `arr`, with the register starting at `crc_init`.
pub fn crc16_calc(arr: &[u8], crc_init: u16) -> (r: u16)
    ensures
        r == crc16_spec(arr@, crc_init),
{
    let mut crc16: u16 = crc_init;
    let mut i: usize = 0;
    while i < arr.len()
        invariant
            i <= arr@.len(),
            crc16 == crc16_prefix(arr@, i as nat, crc_init),
        decreases arr@.len() - i,
    {
        let val = arr[i];
        let temp = (crc16 >> 8u16) as u8;
        let entry = crc16_table(val ^ temp);
        crc16 = (crc16 << 8u16) ^ entry;
        i += 1;
    }
    crc16
}

/// The checksum is a function of the bytes and the initial value alone: two
/// computations over the same input agree.
pub proof fn lemma_crc16_deterministic(b: Seq<u8>, init: u16, first: u16, second: u16)
    requires
        first == crc16_spec(b, init),
        second == crc16_spec(b, init),
    ensures
        first == second,
{
}

} // verus!
