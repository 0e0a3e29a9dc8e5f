//! The 16-bit frame check sequence: a reflected CRC driven by a 256-entry table.

use vstd::prelude::*;

verus! {

/// Value the running check sequence starts from.
pub const FCS_INIT: u16 = 0xFFFF;

/// Value the check sequence reaches after a whole frame, its two check bytes included,
/// when nothing was corrupted.
pub const FCS_GOOD: u16 = 0xF0B8;

/// Table of the byte-wise update, indexed by the low byte of `crc ^ byte`.
pub const FCS_TABLE: [u16; 256] = [
    0x0000, 0x1189, 0x2312, 0x329b, 0x4624, 0x57ad, 0x6536, 0x74bf,
    0x8c48, 0x9dc1, 0xaf5a, 0xbed3, 0xca6c, 0xdbe5, 0xe97e, 0xf8f7,
    0x1081, 0x0108, 0x3393, 0x221a, 0x56a5, 0x472c, 0x75b7, 0x643e,
    0x9cc9, 0x8d40, 0xbfdb, 0xae52, 0xdaed, 0xcb64, 0xf9ff, 0xe876,
    0x2102, 0x308b, 0x0210, 0x1399, 0x6726, 0x76af, 0x4434, 0x55bd,
    0xad4a, 0xbcc3, 0x8e58, 0x9fd1, 0xeb6e, 0xfae7, 0xc87c, 0xd9f5,
    0x3183, 0x200a, 0x1291, 0x0318, 0x77a7, 0x662e, 0x54b5, 0x453c,
    0xbdcb, 0xac42, 0x9ed9, 0x8f50, 0xfbef, 0xea66, 0xd8fd, 0xc974,
    0x4204, 0x538d, 0x6116, 0x709f, 0x0420, 0x15a9, 0x2732, 0x36bb,
    0xce4c, 0xdfc5, 0xed5e, 0xfcd7, 0x8868, 0x99e1, 0xab7a, 0xbaf3,
    0x5285, 0x430c, 0x7197, 0x601e, 0x14a1, 0x0528, 0x37b3, 0x263a,
    0xdecd, 0xcf44, 0xfddf, 0xec56, 0x98e9, 0x8960, 0xbbfb, 0xaa72,
    0x6306, 0x728f, 0x4014, 0x519d, 0x2522, 0x34ab, 0x0630, 0x17b9,
    0xef4e, 0xfec7, 0xcc5c, 0xddd5, 0xa96a, 0xb8e3, 0x8a78, 0x9bf1,
    0x7387, 0x620e, 0x5095, 0x411c, 0x35a3, 0x242a, 0x16b1, 0x0738,
    0xffcf, 0xee46, 0xdcdd, 0xcd54, 0xb9eb, 0xa862, 0x9af9, 0x8b70,
    0x8408, 0x9581, 0xa71a, 0xb693, 0xc22c, 0xd3a5, 0xe13e, 0xf0b7,
    0x0840, 0x19c9, 0x2b52, 0x3adb, 0x4e64, 0x5fed, 0x6d76, 0x7cff,
    0x9489, 0x8500, 0xb79b, 0xa612, 0xd2ad, 0xc324, 0xf1bf, 0xe036,
    0x18c1, 0x0948, 0x3bd3, 0x2a5a, 0x5ee5, 0x4f6c, 0x7df7, 0x6c7e,
    0xa50a, 0xb483, 0x8618, 0x9791, 0xe32e, 0xf2a7, 0xc03c, 0xd1b5,
    0x2942, 0x38cb, 0x0a50, 0x1bd9, 0x6f66, 0x7eef, 0x4c74, 0x5dfd,
    0xb58b, 0xa402, 0x9699, 0x8710, 0xf3af, 0xe226, 0xd0bd, 0xc134,
    0x39c3, 0x284a, 0x1ad1, 0x0b58, 0x7fe7, 0x6e6e, 0x5cf5, 0x4d7c,
    0xc60c, 0xd785, 0xe51e, 0xf497, 0x8028, 0x91a1, 0xa33a, 0xb2b3,
    0x4a44, 0x5bcd, 0x6956, 0x78df, 0x0c60, 0x1de9, 0x2f72, 0x3efb,
    0xd68d, 0xc704, 0xf59f, 0xe416, 0x90a9, 0x8120, 0xb3bb, 0xa232,
    0x5ac5, 0x4b4c, 0x79d7, 0x685e, 0x1ce1, 0x0d68, 0x3ff3, 0x2e7a,
    0xe70e, 0xf687, 0xc41c, 0xd595, 0xa12a, 0xb0a3, 0x8238, 0x93b1,
    0x6b46, 0x7acf, 0x4854, 0x59dd, 0x2d62, 0x3ceb, 0x0e70, 0x1ff9,
    0xf78f, 0xe606, 0xd49d, 0xc514, 0xb1ab, 0xa022, 0x92b9, 0x8330,
    0x7bc7, 0x6a4e, 0x58d5, 0x495c, 0x3de3, 0x2c6a, 0x1ef1, 0x0f78,
];

/// One step of the check sequence over one byte.
pub open spec fn fcs_step(crc: u16, b: u8) -> u16 {
    (crc >> 8u16) ^ FCS_TABLE@[((crc ^ (b as u16)) & 0xFFu16) as int]
}

/// The check sequence after feeding every byte of `s`, in order, from `c`.
pub open spec fn fcs_from(c: u16, s: Seq<u8>) -> u16
    decreases s.len(),
{
    if s.len() == 0 {
        c
    } else {
        fcs_step(fcs_from(c, s.drop_last()), s.last())
    }
}

/// The check sequence after feeding every byte of `s`, in order, from `FCS_INIT`.
pub open spec fn fcs_of(s: Seq<u8>) -> u16 {
    fcs_from(FCS_INIT, s)
}

/// One bit-serial step of the reflected CRC with generator polynomial 0x8408.
pub open spec fn crc_shift(c: u16) -> u16 {
    if c & 1u16 == 1u16 {
        (c >> 1u16) ^ 0x8408u16
    } else {
        c >> 1u16
    }
}

/// Eight bit-serial steps from `i`: what the table holds at index `i`.
pub open spec fn crc_table_entry(i: u16) -> u16 {
    crc_shift(crc_shift(crc_shift(crc_shift(crc_shift(crc_shift(crc_shift(crc_shift(i))))))))
}

/// Each entry of the table is eight bit-serial steps of the generator polynomial
/// from its index.
pub proof fn lemma_table_entry(i: u8)
    ensures
        FCS_TABLE@[i as int] == crc_table_entry(i as u16),
{
    assert(
        crc_table_entry(0u16) == 0x0000 &&
        crc_table_entry(1u16) == 0x1189 &&
        crc_table_entry(2u16) == 0x2312 &&
        crc_table_entry(3u16) == 0x329b &&
        crc_table_entry(4u16) == 0x4624 &&
        crc_table_entry(5u16) == 0x57ad &&
        crc_table_entry(6u16) == 0x6536 &&
        crc_table_entry(7u16) == 0x74bf &&
        crc_table_entry(8u16) == 0x8c48 &&
        crc_table_entry(9u16) == 0x9dc1 &&
        crc_table_entry(10u16) == 0xaf5a &&
        crc_table_entry(11u16) == 0xbed3 &&
        crc_table_entry(12u16) == 0xca6c &&
        crc_table_entry(13u16) == 0xdbe5 &&
        crc_table_entry(14u16) == 0xe97e &&
        crc_table_entry(15u16) == 0xf8f7 &&
        crc_table_entry(16u16) == 0x1081 &&
        crc_table_entry(17u16) == 0x0108 &&
        crc_table_entry(18u16) == 0x3393 &&
        crc_table_entry(19u16) == 0x221a &&
        crc_table_entry(20u16) == 0x56a5 &&
        crc_table_entry(21u16) == 0x472c &&
        crc_table_entry(22u16) == 0x75b7 &&
        crc_table_entry(23u16) == 0x643e &&
        crc_table_entry(24u16) == 0x9cc9 &&
        crc_table_entry(25u16) == 0x8d40 &&
        crc_table_entry(26u16) == 0xbfdb &&
        crc_table_entry(27u16) == 0xae52 &&
        crc_table_entry(28u16) == 0xdaed &&
        crc_table_entry(29u16) == 0xcb64 &&
        crc_table_entry(30u16) == 0xf9ff &&
        crc_table_entry(31u16) == 0xe876
    ) by (bit_vector);
    assert(
        crc_table_entry(32u16) == 0x2102 &&
        crc_table_entry(33u16) == 0x308b &&
        crc_table_entry(34u16) == 0x0210 &&
        crc_table_entry(35u16) == 0x1399 &&
        crc_table_entry(36u16) == 0x6726 &&
        crc_table_entry(37u16) == 0x76af &&
        crc_table_entry(38u16) == 0x4434 &&
        crc_table_entry(39u16) == 0x55bd &&
        crc_table_entry(40u16) == 0xad4a &&
        crc_table_entry(41u16) == 0xbcc3 &&
        crc_table_entry(42u16) == 0x8e58 &&
        crc_table_entry(43u16) == 0x9fd1 &&
        crc_table_entry(44u16) == 0xeb6e &&
        crc_table_entry(45u16) == 0xfae7 &&
        crc_table_entry(46u16) == 0xc87c &&
        crc_table_entry(47u16) == 0xd9f5 &&
        crc_table_entry(48u16) == 0x3183 &&
        crc_table_entry(49u16) == 0x200a &&
        crc_table_entry(50u16) == 0x1291 &&
        crc_table_entry(51u16) == 0x0318 &&
        crc_table_entry(52u16) == 0x77a7 &&
        crc_table_entry(53u16) == 0x662e &&
        crc_table_entry(54u16) == 0x54b5 &&
        crc_table_entry(55u16) == 0x453c &&
        crc_table_entry(56u16) == 0xbdcb &&
        crc_table_entry(57u16) == 0xac42 &&
        crc_table_entry(58u16) == 0x9ed9 &&
        crc_table_entry(59u16) == 0x8f50 &&
        crc_table_entry(60u16) == 0xfbef &&
        crc_table_entry(61u16) == 0xea66 &&
        crc_table_entry(62u16) == 0xd8fd &&
        crc_table_entry(63u16) == 0xc974
    ) by (bit_vector);
    assert(
        crc_table_entry(64u16) == 0x4204 &&
        crc_table_entry(65u16) == 0x538d &&
        crc_table_entry(66u16) == 0x6116 &&
        crc_table_entry(67u16) == 0x709f &&
        crc_table_entry(68u16) == 0x0420 &&
        crc_table_entry(69u16) == 0x15a9 &&
        crc_table_entry(70u16) == 0x2732 &&
        crc_table_entry(71u16) == 0x36bb &&
        crc_table_entry(72u16) == 0xce4c &&
        crc_table_entry(73u16) == 0xdfc5 &&
        crc_table_entry(74u16) == 0xed5e &&
        crc_table_entry(75u16) == 0xfcd7 &&
        crc_table_entry(76u16) == 0x8868 &&
        crc_table_entry(77u16) == 0x99e1 &&
        crc_table_entry(78u16) == 0xab7a &&
        crc_table_entry(79u16) == 0xbaf3 &&
        crc_table_entry(80u16) == 0x5285 &&
        crc_table_entry(81u16) == 0x430c &&
        crc_table_entry(82u16) == 0x7197 &&
        crc_table_entry(83u16) == 0x601e &&
        crc_table_entry(84u16) == 0x14a1 &&
        crc_table_entry(85u16) == 0x0528 &&
        crc_table_entry(86u16) == 0x37b3 &&
        crc_table_entry(87u16) == 0x263a &&
        crc_table_entry(88u16) == 0xdecd &&
        crc_table_entry(89u16) == 0xcf44 &&
        crc_table_entry(90u16) == 0xfddf &&
        crc_table_entry(91u16) == 0xec56 &&
        crc_table_entry(92u16) == 0x98e9 &&
        crc_table_entry(93u16) == 0x8960 &&
        crc_table_entry(94u16) == 0xbbfb &&
        crc_table_entry(95u16) == 0xaa72
    ) by (bit_vector);
    assert(
        crc_table_entry(96u16) == 0x6306 &&
        crc_table_entry(97u16) == 0x728f &&
        crc_table_entry(98u16) == 0x4014 &&
        crc_table_entry(99u16) == 0x519d &&
        crc_table_entry(100u16) == 0x2522 &&
        crc_table_entry(101u16) == 0x34ab &&
        crc_table_entry(102u16) == 0x0630 &&
        crc_table_entry(103u16) == 0x17b9 &&
        crc_table_entry(104u16) == 0xef4e &&
        crc_table_entry(105u16) == 0xfec7 &&
        crc_table_entry(106u16) == 0xcc5c &&
        crc_table_entry(107u16) == 0xddd5 &&
        crc_table_entry(108u16) == 0xa96a &&
        crc_table_entry(109u16) == 0xb8e3 &&
        crc_table_entry(110u16) == 0x8a78 &&
        crc_table_entry(111u16) == 0x9bf1 &&
        crc_table_entry(112u16) == 0x7387 &&
        crc_table_entry(113u16) == 0x620e &&
        crc_table_entry(114u16) == 0x5095 &&
        crc_table_entry(115u16) == 0x411c &&
        crc_table_entry(116u16) == 0x35a3 &&
        crc_table_entry(117u16) == 0x242a &&
        crc_table_entry(118u16) == 0x16b1 &&
        crc_table_entry(119u16) == 0x0738 &&
        crc_table_entry(120u16) == 0xffcf &&
        crc_table_entry(121u16) == 0xee46 &&
        crc_table_entry(122u16) == 0xdcdd &&
        crc_table_entry(123u16) == 0xcd54 &&
        crc_table_entry(124u16) == 0xb9eb &&
        crc_table_entry(125u16) == 0xa862 &&
        crc_table_entry(126u16) == 0x9af9 &&
        crc_table_entry(127u16) == 0x8b70
    ) by (bit_vector);
    assert(
        crc_table_entry(128u16) == 0x8408 &&
        crc_table_entry(129u16) == 0x9581 &&
        crc_table_entry(130u16) == 0xa71a &&
        crc_table_entry(131u16) == 0xb693 &&
        crc_table_entry(132u16) == 0xc22c &&
        crc_table_entry(133u16) == 0xd3a5 &&
        crc_table_entry(134u16) == 0xe13e &&
        crc_table_entry(135u16) == 0xf0b7 &&
        crc_table_entry(136u16) == 0x0840 &&
        crc_table_entry(137u16) == 0x19c9 &&
        crc_table_entry(138u16) == 0x2b52 &&
        crc_table_entry(139u16) == 0x3adb &&
        crc_table_entry(140u16) == 0x4e64 &&
        crc_table_entry(141u16) == 0x5fed &&
        crc_table_entry(142u16) == 0x6d76 &&
        crc_table_entry(143u16) == 0x7cff &&
        crc_table_entry(144u16) == 0x9489 &&
        crc_table_entry(145u16) == 0x8500 &&
        crc_table_entry(146u16) == 0xb79b &&
        crc_table_entry(147u16) == 0xa612 &&
        crc_table_entry(148u16) == 0xd2ad &&
        crc_table_entry(149u16) == 0xc324 &&
        crc_table_entry(150u16) == 0xf1bf &&
        crc_table_entry(151u16) == 0xe036 &&
        crc_table_entry(152u16) == 0x18c1 &&
        crc_table_entry(153u16) == 0x0948 &&
        crc_table_entry(154u16) == 0x3bd3 &&
        crc_table_entry(155u16) == 0x2a5a &&
        crc_table_entry(156u16) == 0x5ee5 &&
        crc_table_entry(157u16) == 0x4f6c &&
        crc_table_entry(158u16) == 0x7df7 &&
        crc_table_entry(159u16) == 0x6c7e
    ) by (bit_vector);
    assert(
        crc_table_entry(160u16) == 0xa50a &&
        crc_table_entry(161u16) == 0xb483 &&
        crc_table_entry(162u16) == 0x8618 &&
        crc_table_entry(163u16) == 0x9791 &&
        crc_table_entry(164u16) == 0xe32e &&
        crc_table_entry(165u16) == 0xf2a7 &&
        crc_table_entry(166u16) == 0xc03c &&
        crc_table_entry(167u16) == 0xd1b5 &&
        crc_table_entry(168u16) == 0x2942 &&
        crc_table_entry(169u16) == 0x38cb &&
        crc_table_entry(170u16) == 0x0a50 &&
        crc_table_entry(171u16) == 0x1bd9 &&
        crc_table_entry(172u16) == 0x6f66 &&
        crc_table_entry(173u16) == 0x7eef &&
        crc_table_entry(174u16) == 0x4c74 &&
        crc_table_entry(175u16) == 0x5dfd &&
        crc_table_entry(176u16) == 0xb58b &&
        crc_table_entry(177u16) == 0xa402 &&
        crc_table_entry(178u16) == 0x9699 &&
        crc_table_entry(179u16) == 0x8710 &&
        crc_table_entry(180u16) == 0xf3af &&
        crc_table_entry(181u16) == 0xe226 &&
        crc_table_entry(182u16) == 0xd0bd &&
        crc_table_entry(183u16) == 0xc134 &&
        crc_table_entry(184u16) == 0x39c3 &&
        crc_table_entry(185u16) == 0x284a &&
        crc_table_entry(186u16) == 0x1ad1 &&
        crc_table_entry(187u16) == 0x0b58 &&
        crc_table_entry(188u16) == 0x7fe7 &&
        crc_table_entry(189u16) == 0x6e6e &&
        crc_table_entry(190u16) == 0x5cf5 &&
        crc_table_entry(191u16) == 0x4d7c
    ) by (bit_vector);
    assert(
        crc_table_entry(192u16) == 0xc60c &&
        crc_table_entry(193u16) == 0xd785 &&
        crc_table_entry(194u16) == 0xe51e &&
        crc_table_entry(195u16) == 0xf497 &&
        crc_table_entry(196u16) == 0x8028 &&
        crc_table_entry(197u16) == 0x91a1 &&
        crc_table_entry(198u16) == 0xa33a &&
        crc_table_entry(199u16) == 0xb2b3 &&
        crc_table_entry(200u16) == 0x4a44 &&
        crc_table_entry(201u16) == 0x5bcd &&
        crc_table_entry(202u16) == 0x6956 &&
        crc_table_entry(203u16) == 0x78df &&
        crc_table_entry(204u16) == 0x0c60 &&
        crc_table_entry(205u16) == 0x1de9 &&
        crc_table_entry(206u16) == 0x2f72 &&
        crc_table_entry(207u16) == 0x3efb &&
        crc_table_entry(208u16) == 0xd68d &&
        crc_table_entry(209u16) == 0xc704 &&
        crc_table_entry(210u16) == 0xf59f &&
        crc_table_entry(211u16) == 0xe416 &&
        crc_table_entry(212u16) == 0x90a9 &&
        crc_table_entry(213u16) == 0x8120 &&
        crc_table_entry(214u16) == 0xb3bb &&
        crc_table_entry(215u16) == 0xa232 &&
        crc_table_entry(216u16) == 0x5ac5 &&
        crc_table_entry(217u16) == 0x4b4c &&
        crc_table_entry(218u16) == 0x79d7 &&
        crc_table_entry(219u16) == 0x685e &&
        crc_table_entry(220u16) == 0x1ce1 &&
        crc_table_entry(221u16) == 0x0d68 &&
        crc_table_entry(222u16) == 0x3ff3 &&
        crc_table_entry(223u16) == 0x2e7a
    ) by (bit_vector);
    assert(
        crc_table_entry(224u16) == 0xe70e &&
        crc_table_entry(225u16) == 0xf687 &&
        crc_table_entry(226u16) == 0xc41c &&
        crc_table_entry(227u16) == 0xd595 &&
        crc_table_entry(228u16) == 0xa12a &&
        crc_table_entry(229u16) == 0xb0a3 &&
        crc_table_entry(230u16) == 0x8238 &&
        crc_table_entry(231u16) == 0x93b1 &&
        crc_table_entry(232u16) == 0x6b46 &&
        crc_table_entry(233u16) == 0x7acf &&
        crc_table_entry(234u16) == 0x4854 &&
        crc_table_entry(235u16) == 0x59dd &&
        crc_table_entry(236u16) == 0x2d62 &&
        crc_table_entry(237u16) == 0x3ceb &&
        crc_table_entry(238u16) == 0x0e70 &&
        crc_table_entry(239u16) == 0x1ff9 &&
        crc_table_entry(240u16) == 0xf78f &&
        crc_table_entry(241u16) == 0xe606 &&
        crc_table_entry(242u16) == 0xd49d &&
        crc_table_entry(243u16) == 0xc514 &&
        crc_table_entry(244u16) == 0xb1ab &&
        crc_table_entry(245u16) == 0xa022 &&
        crc_table_entry(246u16) == 0x92b9 &&
        crc_table_entry(247u16) == 0x8330 &&
        crc_table_entry(248u16) == 0x7bc7 &&
        crc_table_entry(249u16) == 0x6a4e &&
        crc_table_entry(250u16) == 0x58d5 &&
        crc_table_entry(251u16) == 0x495c &&
        crc_table_entry(252u16) == 0x3de3 &&
        crc_table_entry(253u16) == 0x2c6a &&
        crc_table_entry(254u16) == 0x1ef1 &&
        crc_table_entry(255u16) == 0x0f78
    ) by (bit_vector);
    match i {
        0u8 => {},
        1u8 => {},
        2u8 => {},
        3u8 => {},
        4u8 => {},
        5u8 => {},
        6u8 => {},
        7u8 => {},
        8u8 => {},
        9u8 => {},
        10u8 => {},
        11u8 => {},
        12u8 => {},
        13u8 => {},
        14u8 => {},
        15u8 => {},
        16u8 => {},
        17u8 => {},
        18u8 => {},
        19u8 => {},
        20u8 => {},
        21u8 => {},
        22u8 => {},
        23u8 => {},
        24u8 => {},
        25u8 => {},
        26u8 => {},
        27u8 => {},
        28u8 => {},
        29u8 => {},
        30u8 => {},
        31u8 => {},
        32u8 => {},
        33u8 => {},
        34u8 => {},
        35u8 => {},
        36u8 => {},
        37u8 => {},
        38u8 => {},
        39u8 => {},
        40u8 => {},
        41u8 => {},
        42u8 => {},
        43u8 => {},
        44u8 => {},
        45u8 => {},
        46u8 => {},
        47u8 => {},
        48u8 => {},
        49u8 => {},
        50u8 => {},
        51u8 => {},
        52u8 => {},
        53u8 => {},
        54u8 => {},
        55u8 => {},
        56u8 => {},
        57u8 => {},
        58u8 => {},
        59u8 => {},
        60u8 => {},
        61u8 => {},
        62u8 => {},
        63u8 => {},
        64u8 => {},
        65u8 => {},
        66u8 => {},
        67u8 => {},
        68u8 => {},
        69u8 => {},
        70u8 => {},
        71u8 => {},
        72u8 => {},
        73u8 => {},
        74u8 => {},
        75u8 => {},
        76u8 => {},
        77u8 => {},
        78u8 => {},
        79u8 => {},
        80u8 => {},
        81u8 => {},
        82u8 => {},
        83u8 => {},
        84u8 => {},
        85u8 => {},
        86u8 => {},
        87u8 => {},
        88u8 => {},
        89u8 => {},
        90u8 => {},
        91u8 => {},
        92u8 => {},
        93u8 => {},
        94u8 => {},
        95u8 => {},
        96u8 => {},
        97u8 => {},
        98u8 => {},
        99u8 => {},
        100u8 => {},
        101u8 => {},
        102u8 => {},
        103u8 => {},
        104u8 => {},
        105u8 => {},
        106u8 => {},
        107u8 => {},
        108u8 => {},
        109u8 => {},
        110u8 => {},
        111u8 => {},
        112u8 => {},
        113u8 => {},
        114u8 => {},
        115u8 => {},
        116u8 => {},
        117u8 => {},
        118u8 => {},
        119u8 => {},
        120u8 => {},
        121u8 => {},
        122u8 => {},
        123u8 => {},
        124u8 => {},
        125u8 => {},
        126u8 => {},
        127u8 => {},
        128u8 => {},
        129u8 => {},
        130u8 => {},
        131u8 => {},
        132u8 => {},
        133u8 => {},
        134u8 => {},
        135u8 => {},
        136u8 => {},
        137u8 => {},
        138u8 => {},
        139u8 => {},
        140u8 => {},
        141u8 => {},
        142u8 => {},
        143u8 => {},
        144u8 => {},
        145u8 => {},
        146u8 => {},
        147u8 => {},
        148u8 => {},
        149u8 => {},
        150u8 => {},
        151u8 => {},
        152u8 => {},
        153u8 => {},
        154u8 => {},
        155u8 => {},
        156u8 => {},
        157u8 => {},
        158u8 => {},
        159u8 => {},
        160u8 => {},
        161u8 => {},
        162u8 => {},
        163u8 => {},
        164u8 => {},
        165u8 => {},
        166u8 => {},
        167u8 => {},
        168u8 => {},
        169u8 => {},
        170u8 => {},
        171u8 => {},
        172u8 => {},
        173u8 => {},
        174u8 => {},
        175u8 => {},
        176u8 => {},
        177u8 => {},
        178u8 => {},
        179u8 => {},
        180u8 => {},
        181u8 => {},
        182u8 => {},
        183u8 => {},
        184u8 => {},
        185u8 => {},
        186u8 => {},
        187u8 => {},
        188u8 => {},
        189u8 => {},
        190u8 => {},
        191u8 => {},
        192u8 => {},
        193u8 => {},
        194u8 => {},
        195u8 => {},
        196u8 => {},
        197u8 => {},
        198u8 => {},
        199u8 => {},
        200u8 => {},
        201u8 => {},
        202u8 => {},
        203u8 => {},
        204u8 => {},
        205u8 => {},
        206u8 => {},
        207u8 => {},
        208u8 => {},
        209u8 => {},
        210u8 => {},
        211u8 => {},
        212u8 => {},
        213u8 => {},
        214u8 => {},
        215u8 => {},
        216u8 => {},
        217u8 => {},
        218u8 => {},
        219u8 => {},
        220u8 => {},
        221u8 => {},
        222u8 => {},
        223u8 => {},
        224u8 => {},
        225u8 => {},
        226u8 => {},
        227u8 => {},
        228u8 => {},
        229u8 => {},
        230u8 => {},
        231u8 => {},
        232u8 => {},
        233u8 => {},
        234u8 => {},
        235u8 => {},
        236u8 => {},
        237u8 => {},
        238u8 => {},
        239u8 => {},
        240u8 => {},
        241u8 => {},
        242u8 => {},
        243u8 => {},
        244u8 => {},
        245u8 => {},
        246u8 => {},
        247u8 => {},
        248u8 => {},
        249u8 => {},
        250u8 => {},
        251u8 => {},
        252u8 => {},
        253u8 => {},
        254u8 => {},
        255u8 => {},
    }
}

/// The check sequence step in bit-serial form.
proof fn lemma_step_serial(c: u16, b: u8)
    ensures
        fcs_step(c, b) == (c >> 8u16) ^ crc_table_entry((c ^ (b as u16)) & 0xFFu16),
{
    let i = (c ^ (b as u16)) & 0xFFu16;
    assert(i < 256u16) by (bit_vector)
        requires
            i == (c ^ (b as u16)) & 0xFFu16,
    ;
    lemma_table_entry(i as u8);
}

/// One step is linear: stepping the xor of two states over the xor of two bytes
/// gives the xor of the two steps.
proof fn lemma_step_linear(c1: u16, c2: u16, b1: u8, b2: u8)
    ensures
        fcs_step(c1 ^ c2, b1 ^ b2) == fcs_step(c1, b1) ^ fcs_step(c2, b2),
{
    lemma_step_serial(c1 ^ c2, b1 ^ b2);
    lemma_step_serial(c1, b1);
    lemma_step_serial(c2, b2);
    assert(((c1 ^ c2) >> 8u16) ^ crc_table_entry(((c1 ^ c2) ^ ((b1 ^ b2) as u16)) & 0xFFu16)
        == ((c1 >> 8u16) ^ crc_table_entry((c1 ^ (b1 as u16)) & 0xFFu16))
            ^ ((c2 >> 8u16) ^ crc_table_entry((c2 ^ (b2 as u16)) & 0xFFu16))) by (bit_vector);
}

/// A byte sequence of length `n` that is zero but at `p`, where it is `m`.
pub open spec fn single_error(n: nat, p: int, m: u8) -> Seq<u8> {
    Seq::new(n, |i: int| if i == p { m } else { 0u8 })
}

/// Feeding `s` with the byte at `p` xored by `m` gives the check sequence of `s`
/// xored by that of the error pattern fed from zero.
proof fn lemma_fcs_error(c: u16, s: Seq<u8>, p: int, m: u8)
    requires
        0 <= p < s.len(),
    ensures
        fcs_from(c, s.update(p, s[p] ^ m)) == fcs_from(c, s) ^ fcs_from(0u16, single_error(s.len(), p, m)),
    decreases s.len(),
{
    let n = s.len();
    let t = s.update(p, s[p] ^ m);
    let e = single_error(n, p, m);
    assert(t.drop_last() =~= if p < n - 1 { s.drop_last().update(p, s[p] ^ m) } else { s.drop_last() });
    assert(e.drop_last() =~= single_error((n - 1) as nat, p, m));
    if p < n - 1 {
        lemma_fcs_error(c, s.drop_last(), p, m);
        lemma_step_linear(fcs_from(c, s.drop_last()), fcs_from(0u16, e.drop_last()), s.last(), 0u8);
        let x = s.last();
        assert(x ^ 0u8 == x) by (bit_vector);
    } else {
        lemma_zero_run(((n - 1) as nat), p, m);
        lemma_step_linear(fcs_from(c, s.drop_last()), 0u16, s.last(), m);
        let y = fcs_from(c, s.drop_last());
        assert(y ^ 0u16 == y) by (bit_vector);
    }
}

/// An all-zero run fed from zero leaves zero.
proof fn lemma_zero_run(n: nat, p: int, m: u8)
    requires
        n <= p,
    ensures
        fcs_from(0u16, single_error(n, p, m)) == 0u16,
    decreases n,
{
    if n > 0 {
        let e = single_error(n, p, m);
        assert(e.drop_last() =~= single_error((n - 1) as nat, p, m));
        lemma_zero_run((n - 1) as nat, p, m);
        lemma_step_serial(0u16, 0u8);
        assert(e.last() == 0u8);
        assert((0u16 >> 8u16) ^ crc_table_entry((0u16 ^ (0u8 as u16)) & 0xFFu16) == 0u16) by (bit_vector);
    }
}

/// A single-bit error pattern fed from zero never leaves zero.
proof fn lemma_single_error_nonzero(n: nat, p: int, k: u8)
    requires
        0 <= p < n,
        k < 8,
    ensures
        fcs_from(0u16, single_error(n, p, 1u8 << k)) != 0u16,
    decreases n,
{
    let m = 1u8 << k;
    let e = single_error(n, p, m);
    assert(e.drop_last() =~= single_error((n - 1) as nat, p, m));
    if p < n - 1 {
        lemma_single_error_nonzero((n - 1) as nat, p, k);
        let c = fcs_from(0u16, e.drop_last());
        lemma_step_serial(c, 0u8);
        assert(c != 0u16 ==> (c >> 8u16) ^ crc_table_entry((c ^ (0u8 as u16)) & 0xFFu16) != 0u16) by (bit_vector);
    } else {
        lemma_zero_run((n - 1) as nat, p, m);
        lemma_step_serial(0u16, m);
        assert(k < 8u8 ==> (0u16 >> 8u16) ^ crc_table_entry((0u16 ^ ((1u8 << k) as u16)) & 0xFFu16) != 0u16) by (bit_vector);
    }
}

/// Flipping any single bit of a byte sequence changes its check sequence.
pub proof fn lemma_bit_flip_changes_fcs(s: Seq<u8>, p: int, k: u8)
    requires
        0 <= p < s.len(),
        k < 8,
    ensures
        fcs_of(s.update(p, s[p] ^ (1u8 << k))) != fcs_of(s),
{
    lemma_fcs_error(FCS_INIT, s, p, 1u8 << k);
    lemma_single_error_nonzero(s.len(), p, k);
    let a = fcs_of(s);
    let b = fcs_from(0u16, single_error(s.len(), p, 1u8 << k));
    assert(b != 0u16 ==> a ^ b != a) by (bit_vector);
}

/// An intact check sequence needs at least two bytes: from `FCS_INIT`, no byte
/// and no single byte reaches `FCS_GOOD`.
pub proof fn lemma_good_fcs_len(s: Seq<u8>)
    requires
        fcs_of(s) == FCS_GOOD,
    ensures
        s.len() >= 2,
{
    if s.len() == 1 {
        let x = s.last();
        assert(s.drop_last().len() == 0);
        assert(fcs_from(FCS_INIT, s.drop_last()) == FCS_INIT);
        lemma_step_serial(FCS_INIT, x);
        assert((0xFFFFu16 >> 8u16) ^ crc_table_entry((0xFFFFu16 ^ (x as u16)) & 0xFFu16) != 0xF0B8u16)
            by (bit_vector);
    }
}

/// Running check sequence over destuffed frame bytes.
#[derive(Clone, Copy, Debug, PartialEq, Eq)]
pub struct FrameCheckSequence(pub u16);

impl FrameCheckSequence {
    /// A check sequence that has seen no byte yet.
    pub fn new() -> (r: FrameCheckSequence)
        ensures
            r.0 == FCS_INIT,
    {
        FrameCheckSequence(FCS_INIT)
    }

    /// Feeds one byte into the check sequence.
    pub fn update(&mut self, value: u8)
        ensures
            final(self).0 == fcs_step(old(self).0, value),
    {
        let crc = self.0;
        let idx = (crc ^ value as u16) & 0xFF;
        assert((crc ^ value as u16) & 0xFFu16 < 256u16) by (bit_vector);
        self.0 = (crc >> 8) ^ FCS_TABLE[idx as usize];
    }

    /// Whether the bytes seen so far form an intact frame.
    pub fn is_good(&self) -> (r: bool)
        ensures
            r == (self.0 == FCS_GOOD),
    {
        self.0 == FCS_GOOD
    }
}

} // verus!
