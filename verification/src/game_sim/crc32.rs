use vstd::prelude::*;

verus! {

/// One bit of the reflected CRC-32 (IEEE polynomial 0xEDB88320) register update.
pub open spec fn crc_step(c: u32) -> u32 {
    if c & 1u32 == 1u32 {
        0xEDB88320u32 ^ (c >> 1u32)
    } else {
        c >> 1u32
    }
}

/// Eight bit-steps: the register update for one byte already xor-ed in.
pub open spec fn crc_step8(c: u32) -> u32 {
    crc_step(crc_step(crc_step(crc_step(crc_step(crc_step(crc_step(crc_step(c))))))))
}

/// The CRC-32 register after absorbing one byte.
pub open spec fn crc_update(crc: u32, b: u8) -> u32 {
    crc_step8(crc ^ (b as u32))
}

/// The CRC-32 register after absorbing `bytes` in order, starting from `crc`.
pub open spec fn crc_fold(crc: u32, bytes: Seq<u8>) -> u32
    decreases bytes.len(),
{
    if bytes.len() == 0 {
        crc
    } else {
        crc_update(crc_fold(crc, bytes.drop_last()), bytes.last())
    }
}

/// The standard CRC-32 (IEEE) of a byte sequence.
pub open spec fn crc32(bytes: Seq<u8>) -> u32 {
    crc_fold(0xFFFF_FFFFu32, bytes) ^ 0xFFFF_FFFFu32
}

/// Absorbing two sequences one after the other is absorbing their concatenation.
pub proof fn lemma_crc_fold_append(crc: u32, a: Seq<u8>, b: Seq<u8>)
    ensures
        crc_fold(crc, a + b) == crc_fold(crc_fold(crc, a), b),
    decreases b.len(),
{
    if b.len() == 0 {
        assert(a + b =~= a);
    } else {
        lemma_crc_fold_append(crc, a, b.drop_last());
        assert((a + b).drop_last() =~= a + b.drop_last());
        assert((a + b).last() == b.last());
    }
}

/// The byte update only depends on the low byte through the table: the
/// CRC-32 update is linear, and the high 24 bits are simply shifted down.
proof fn lemma_crc_step8_split(x: u32)
    ensures
        crc_step8(x) == crc_step8(x & 0xFFu32) ^ (x >> 8u32),
{
    assert(crc_step8(x) == crc_step8(x & 0xFFu32) ^ (x >> 8u32)) by (bit_vector);
}

/// Entry `i` of the byte-wise CRC-32 lookup table.
fn table_entry(i: u32) -> (r: u32)
    requires
        i < 256,
    ensures
        r == crc_step8(i),
{
    assert(
        crc_step8(0u32) == 0x00000000u32 &&
        crc_step8(1u32) == 0x77073096u32 &&
        crc_step8(2u32) == 0xEE0E612Cu32 &&
        crc_step8(3u32) == 0x990951BAu32 &&
        crc_step8(4u32) == 0x076DC419u32 &&
        crc_step8(5u32) == 0x706AF48Fu32 &&
        crc_step8(6u32) == 0xE963A535u32 &&
        crc_step8(7u32) == 0x9E6495A3u32 &&
        crc_step8(8u32) == 0x0EDB8832u32 &&
        crc_step8(9u32) == 0x79DCB8A4u32 &&
        crc_step8(10u32) == 0xE0D5E91Eu32 &&
        crc_step8(11u32) == 0x97D2D988u32 &&
        crc_step8(12u32) == 0x09B64C2Bu32 &&
        crc_step8(13u32) == 0x7EB17CBDu32 &&
        crc_step8(14u32) == 0xE7B82D07u32 &&
        crc_step8(15u32) == 0x90BF1D91u32 &&
        crc_step8(16u32) == 0x1DB71064u32 &&
        crc_step8(17u32) == 0x6AB020F2u32 &&
        crc_step8(18u32) == 0xF3B97148u32 &&
        crc_step8(19u32) == 0x84BE41DEu32 &&
        crc_step8(20u32) == 0x1ADAD47Du32 &&
        crc_step8(21u32) == 0x6DDDE4EBu32 &&
        crc_step8(22u32) == 0xF4D4B551u32 &&
        crc_step8(23u32) == 0x83D385C7u32 &&
        crc_step8(24u32) == 0x136C9856u32 &&
        crc_step8(25u32) == 0x646BA8C0u32 &&
        crc_step8(26u32) == 0xFD62F97Au32 &&
        crc_step8(27u32) == 0x8A65C9ECu32 &&
        crc_step8(28u32) == 0x14015C4Fu32 &&
        crc_step8(29u32) == 0x63066CD9u32 &&
        crc_step8(30u32) == 0xFA0F3D63u32 &&
        crc_step8(31u32) == 0x8D080DF5u32 &&
        crc_step8(32u32) == 0x3B6E20C8u32 &&
        crc_step8(33u32) == 0x4C69105Eu32 &&
        crc_step8(34u32) == 0xD56041E4u32 &&
        crc_step8(35u32) == 0xA2677172u32 &&
        crc_step8(36u32) == 0x3C03E4D1u32 &&
        crc_step8(37u32) == 0x4B04D447u32 &&
        crc_step8(38u32) == 0xD20D85FDu32 &&
        crc_step8(39u32) == 0xA50AB56Bu32 &&
        crc_step8(40u32) == 0x35B5A8FAu32 &&
        crc_step8(41u32) == 0x42B2986Cu32 &&
        crc_step8(42u32) == 0xDBBBC9D6u32 &&
        crc_step8(43u32) == 0xACBCF940u32 &&
        crc_step8(44u32) == 0x32D86CE3u32 &&
        crc_step8(45u32) == 0x45DF5C75u32 &&
        crc_step8(46u32) == 0xDCD60DCFu32 &&
        crc_step8(47u32) == 0xABD13D59u32 &&
        crc_step8(48u32) == 0x26D930ACu32 &&
        crc_step8(49u32) == 0x51DE003Au32 &&
        crc_step8(50u32) == 0xC8D75180u32 &&
        crc_step8(51u32) == 0xBFD06116u32 &&
        crc_step8(52u32) == 0x21B4F4B5u32 &&
        crc_step8(53u32) == 0x56B3C423u32 &&
        crc_step8(54u32) == 0xCFBA9599u32 &&
        crc_step8(55u32) == 0xB8BDA50Fu32 &&
        crc_step8(56u32) == 0x2802B89Eu32 &&
        crc_step8(57u32) == 0x5F058808u32 &&
        crc_step8(58u32) == 0xC60CD9B2u32 &&
        crc_step8(59u32) == 0xB10BE924u32 &&
        crc_step8(60u32) == 0x2F6F7C87u32 &&
        crc_step8(61u32) == 0x58684C11u32 &&
        crc_step8(62u32) == 0xC1611DABu32 &&
        crc_step8(63u32) == 0xB6662D3Du32 &&
        crc_step8(64u32) == 0x76DC4190u32 &&
        crc_step8(65u32) == 0x01DB7106u32 &&
        crc_step8(66u32) == 0x98D220BCu32 &&
        crc_step8(67u32) == 0xEFD5102Au32 &&
        crc_step8(68u32) == 0x71B18589u32 &&
        crc_step8(69u32) == 0x06B6B51Fu32 &&
        crc_step8(70u32) == 0x9FBFE4A5u32 &&
        crc_step8(71u32) == 0xE8B8D433u32 &&
        crc_step8(72u32) == 0x7807C9A2u32 &&
        crc_step8(73u32) == 0x0F00F934u32 &&
        crc_step8(74u32) == 0x9609A88Eu32 &&
        crc_step8(75u32) == 0xE10E9818u32 &&
        crc_step8(76u32) == 0x7F6A0DBBu32 &&
        crc_step8(77u32) == 0x086D3D2Du32 &&
        crc_step8(78u32) == 0x91646C97u32 &&
        crc_step8(79u32) == 0xE6635C01u32 &&
        crc_step8(80u32) == 0x6B6B51F4u32 &&
        crc_step8(81u32) == 0x1C6C6162u32 &&
        crc_step8(82u32) == 0x856530D8u32 &&
        crc_step8(83u32) == 0xF262004Eu32 &&
        crc_step8(84u32) == 0x6C0695EDu32 &&
        crc_step8(85u32) == 0x1B01A57Bu32 &&
        crc_step8(86u32) == 0x8208F4C1u32 &&
        crc_step8(87u32) == 0xF50FC457u32 &&
        crc_step8(88u32) == 0x65B0D9C6u32 &&
        crc_step8(89u32) == 0x12B7E950u32 &&
        crc_step8(90u32) == 0x8BBEB8EAu32 &&
        crc_step8(91u32) == 0xFCB9887Cu32 &&
        crc_step8(92u32) == 0x62DD1DDFu32 &&
        crc_step8(93u32) == 0x15DA2D49u32 &&
        crc_step8(94u32) == 0x8CD37CF3u32 &&
        crc_step8(95u32) == 0xFBD44C65u32 &&
        crc_step8(96u32) == 0x4DB26158u32 &&
        crc_step8(97u32) == 0x3AB551CEu32 &&
        crc_step8(98u32) == 0xA3BC0074u32 &&
        crc_step8(99u32) == 0xD4BB30E2u32 &&
        crc_step8(100u32) == 0x4ADFA541u32 &&
        crc_step8(101u32) == 0x3DD895D7u32 &&
        crc_step8(102u32) == 0xA4D1C46Du32 &&
        crc_step8(103u32) == 0xD3D6F4FBu32 &&
        crc_step8(104u32) == 0x4369E96Au32 &&
        crc_step8(105u32) == 0x346ED9FCu32 &&
        crc_step8(106u32) == 0xAD678846u32 &&
        crc_step8(107u32) == 0xDA60B8D0u32 &&
        crc_step8(108u32) == 0x44042D73u32 &&
        crc_step8(109u32) == 0x33031DE5u32 &&
        crc_step8(110u32) == 0xAA0A4C5Fu32 &&
        crc_step8(111u32) == 0xDD0D7CC9u32 &&
        crc_step8(112u32) == 0x5005713Cu32 &&
        crc_step8(113u32) == 0x270241AAu32 &&
        crc_step8(114u32) == 0xBE0B1010u32 &&
        crc_step8(115u32) == 0xC90C2086u32 &&
        crc_step8(116u32) == 0x5768B525u32 &&
        crc_step8(117u32) == 0x206F85B3u32 &&
        crc_step8(118u32) == 0xB966D409u32 &&
        crc_step8(119u32) == 0xCE61E49Fu32 &&
        crc_step8(120u32) == 0x5EDEF90Eu32 &&
        crc_step8(121u32) == 0x29D9C998u32 &&
        crc_step8(122u32) == 0xB0D09822u32 &&
        crc_step8(123u32) == 0xC7D7A8B4u32 &&
        crc_step8(124u32) == 0x59B33D17u32 &&
        crc_step8(125u32) == 0x2EB40D81u32 &&
        crc_step8(126u32) == 0xB7BD5C3Bu32 &&
        crc_step8(127u32) == 0xC0BA6CADu32 &&
        crc_step8(128u32) == 0xEDB88320u32 &&
        crc_step8(129u32) == 0x9ABFB3B6u32 &&
        crc_step8(130u32) == 0x03B6E20Cu32 &&
        crc_step8(131u32) == 0x74B1D29Au32 &&
        crc_step8(132u32) == 0xEAD54739u32 &&
        crc_step8(133u32) == 0x9DD277AFu32 &&
        crc_step8(134u32) == 0x04DB2615u32 &&
        crc_step8(135u32) == 0x73DC1683u32 &&
        crc_step8(136u32) == 0xE3630B12u32 &&
        crc_step8(137u32) == 0x94643B84u32 &&
        crc_step8(138u32) == 0x0D6D6A3Eu32 &&
        crc_step8(139u32) == 0x7A6A5AA8u32 &&
        crc_step8(140u32) == 0xE40ECF0Bu32 &&
        crc_step8(141u32) == 0x9309FF9Du32 &&
        crc_step8(142u32) == 0x0A00AE27u32 &&
        crc_step8(143u32) == 0x7D079EB1u32 &&
        crc_step8(144u32) == 0xF00F9344u32 &&
        crc_step8(145u32) == 0x8708A3D2u32 &&
        crc_step8(146u32) == 0x1E01F268u32 &&
        crc_step8(147u32) == 0x6906C2FEu32 &&
        crc_step8(148u32) == 0xF762575Du32 &&
        crc_step8(149u32) == 0x806567CBu32 &&
        crc_step8(150u32) == 0x196C3671u32 &&
        crc_step8(151u32) == 0x6E6B06E7u32 &&
        crc_step8(152u32) == 0xFED41B76u32 &&
        crc_step8(153u32) == 0x89D32BE0u32 &&
        crc_step8(154u32) == 0x10DA7A5Au32 &&
        crc_step8(155u32) == 0x67DD4ACCu32 &&
        crc_step8(156u32) == 0xF9B9DF6Fu32 &&
        crc_step8(157u32) == 0x8EBEEFF9u32 &&
        crc_step8(158u32) == 0x17B7BE43u32 &&
        crc_step8(159u32) == 0x60B08ED5u32 &&
        crc_step8(160u32) == 0xD6D6A3E8u32 &&
        crc_step8(161u32) == 0xA1D1937Eu32 &&
        crc_step8(162u32) == 0x38D8C2C4u32 &&
        crc_step8(163u32) == 0x4FDFF252u32 &&
        crc_step8(164u32) == 0xD1BB67F1u32 &&
        crc_step8(165u32) == 0xA6BC5767u32 &&
        crc_step8(166u32) == 0x3FB506DDu32 &&
        crc_step8(167u32) == 0x48B2364Bu32 &&
        crc_step8(168u32) == 0xD80D2BDAu32 &&
        crc_step8(169u32) == 0xAF0A1B4Cu32 &&
        crc_step8(170u32) == 0x36034AF6u32 &&
        crc_step8(171u32) == 0x41047A60u32 &&
        crc_step8(172u32) == 0xDF60EFC3u32 &&
        crc_step8(173u32) == 0xA867DF55u32 &&
        crc_step8(174u32) == 0x316E8EEFu32 &&
        crc_step8(175u32) == 0x4669BE79u32 &&
        crc_step8(176u32) == 0xCB61B38Cu32 &&
        crc_step8(177u32) == 0xBC66831Au32 &&
        crc_step8(178u32) == 0x256FD2A0u32 &&
        crc_step8(179u32) == 0x5268E236u32 &&
        crc_step8(180u32) == 0xCC0C7795u32 &&
        crc_step8(181u32) == 0xBB0B4703u32 &&
        crc_step8(182u32) == 0x220216B9u32 &&
        crc_step8(183u32) == 0x5505262Fu32 &&
        crc_step8(184u32) == 0xC5BA3BBEu32 &&
        crc_step8(185u32) == 0xB2BD0B28u32 &&
        crc_step8(186u32) == 0x2BB45A92u32 &&
        crc_step8(187u32) == 0x5CB36A04u32 &&
        crc_step8(188u32) == 0xC2D7FFA7u32 &&
        crc_step8(189u32) == 0xB5D0CF31u32 &&
        crc_step8(190u32) == 0x2CD99E8Bu32 &&
        crc_step8(191u32) == 0x5BDEAE1Du32 &&
        crc_step8(192u32) == 0x9B64C2B0u32 &&
        crc_step8(193u32) == 0xEC63F226u32 &&
        crc_step8(194u32) == 0x756AA39Cu32 &&
        crc_step8(195u32) == 0x026D930Au32 &&
        crc_step8(196u32) == 0x9C0906A9u32 &&
        crc_step8(197u32) == 0xEB0E363Fu32 &&
        crc_step8(198u32) == 0x72076785u32 &&
        crc_step8(199u32) == 0x05005713u32 &&
        crc_step8(200u32) == 0x95BF4A82u32 &&
        crc_step8(201u32) == 0xE2B87A14u32 &&
        crc_step8(202u32) == 0x7BB12BAEu32 &&
        crc_step8(203u32) == 0x0CB61B38u32 &&
        crc_step8(204u32) == 0x92D28E9Bu32 &&
        crc_step8(205u32) == 0xE5D5BE0Du32 &&
        crc_step8(206u32) == 0x7CDCEFB7u32 &&
        crc_step8(207u32) == 0x0BDBDF21u32 &&
        crc_step8(208u32) == 0x86D3D2D4u32 &&
        crc_step8(209u32) == 0xF1D4E242u32 &&
        crc_step8(210u32) == 0x68DDB3F8u32 &&
        crc_step8(211u32) == 0x1FDA836Eu32 &&
        crc_step8(212u32) == 0x81BE16CDu32 &&
        crc_step8(213u32) == 0xF6B9265Bu32 &&
        crc_step8(214u32) == 0x6FB077E1u32 &&
        crc_step8(215u32) == 0x18B74777u32 &&
        crc_step8(216u32) == 0x88085AE6u32 &&
        crc_step8(217u32) == 0xFF0F6A70u32 &&
        crc_step8(218u32) == 0x66063BCAu32 &&
        crc_step8(219u32) == 0x11010B5Cu32 &&
        crc_step8(220u32) == 0x8F659EFFu32 &&
        crc_step8(221u32) == 0xF862AE69u32 &&
        crc_step8(222u32) == 0x616BFFD3u32 &&
        crc_step8(223u32) == 0x166CCF45u32 &&
        crc_step8(224u32) == 0xA00AE278u32 &&
        crc_step8(225u32) == 0xD70DD2EEu32 &&
        crc_step8(226u32) == 0x4E048354u32 &&
        crc_step8(227u32) == 0x3903B3C2u32 &&
        crc_step8(228u32) == 0xA7672661u32 &&
        crc_step8(229u32) == 0xD06016F7u32 &&
        crc_step8(230u32) == 0x4969474Du32 &&
        crc_step8(231u32) == 0x3E6E77DBu32 &&
        crc_step8(232u32) == 0xAED16A4Au32 &&
        crc_step8(233u32) == 0xD9D65ADCu32 &&
        crc_step8(234u32) == 0x40DF0B66u32 &&
        crc_step8(235u32) == 0x37D83BF0u32 &&
        crc_step8(236u32) == 0xA9BCAE53u32 &&
        crc_step8(237u32) == 0xDEBB9EC5u32 &&
        crc_step8(238u32) == 0x47B2CF7Fu32 &&
        crc_step8(239u32) == 0x30B5FFE9u32 &&
        crc_step8(240u32) == 0xBDBDF21Cu32 &&
        crc_step8(241u32) == 0xCABAC28Au32 &&
        crc_step8(242u32) == 0x53B39330u32 &&
        crc_step8(243u32) == 0x24B4A3A6u32 &&
        crc_step8(244u32) == 0xBAD03605u32 &&
        crc_step8(245u32) == 0xCDD70693u32 &&
        crc_step8(246u32) == 0x54DE5729u32 &&
        crc_step8(247u32) == 0x23D967BFu32 &&
        crc_step8(248u32) == 0xB3667A2Eu32 &&
        crc_step8(249u32) == 0xC4614AB8u32 &&
        crc_step8(250u32) == 0x5D681B02u32 &&
        crc_step8(251u32) == 0x2A6F2B94u32 &&
        crc_step8(252u32) == 0xB40BBE37u32 &&
        crc_step8(253u32) == 0xC30C8EA1u32 &&
        crc_step8(254u32) == 0x5A05DF1Bu32 &&
        crc_step8(255u32) == 0x2D02EF8Du32
    ) by (bit_vector);
    match i {
        0 => 0x00000000,
        1 => 0x77073096,
        2 => 0xEE0E612C,
        3 => 0x990951BA,
        4 => 0x076DC419,
        5 => 0x706AF48F,
        6 => 0xE963A535,
        7 => 0x9E6495A3,
        8 => 0x0EDB8832,
        9 => 0x79DCB8A4,
        10 => 0xE0D5E91E,
        11 => 0x97D2D988,
        12 => 0x09B64C2B,
        13 => 0x7EB17CBD,
        14 => 0xE7B82D07,
        15 => 0x90BF1D91,
        16 => 0x1DB71064,
        17 => 0x6AB020F2,
        18 => 0xF3B97148,
        19 => 0x84BE41DE,
        20 => 0x1ADAD47D,
        21 => 0x6DDDE4EB,
        22 => 0xF4D4B551,
        23 => 0x83D385C7,
        24 => 0x136C9856,
        25 => 0x646BA8C0,
        26 => 0xFD62F97A,
        27 => 0x8A65C9EC,
        28 => 0x14015C4F,
        29 => 0x63066CD9,
        30 => 0xFA0F3D63,
        31 => 0x8D080DF5,
        32 => 0x3B6E20C8,
        33 => 0x4C69105E,
        34 => 0xD56041E4,
        35 => 0xA2677172,
        36 => 0x3C03E4D1,
        37 => 0x4B04D447,
        38 => 0xD20D85FD,
        39 => 0xA50AB56B,
        40 => 0x35B5A8FA,
        41 => 0x42B2986C,
        42 => 0xDBBBC9D6,
        43 => 0xACBCF940,
        44 => 0x32D86CE3,
        45 => 0x45DF5C75,
        46 => 0xDCD60DCF,
        47 => 0xABD13D59,
        48 => 0x26D930AC,
        49 => 0x51DE003A,
        50 => 0xC8D75180,
        51 => 0xBFD06116,
        52 => 0x21B4F4B5,
        53 => 0x56B3C423,
        54 => 0xCFBA9599,
        55 => 0xB8BDA50F,
        56 => 0x2802B89E,
        57 => 0x5F058808,
        58 => 0xC60CD9B2,
        59 => 0xB10BE924,
        60 => 0x2F6F7C87,
        61 => 0x58684C11,
        62 => 0xC1611DAB,
        63 => 0xB6662D3D,
        64 => 0x76DC4190,
        65 => 0x01DB7106,
        66 => 0x98D220BC,
        67 => 0xEFD5102A,
        68 => 0x71B18589,
        69 => 0x06B6B51F,
        70 => 0x9FBFE4A5,
        71 => 0xE8B8D433,
        72 => 0x7807C9A2,
        73 => 0x0F00F934,
        74 => 0x9609A88E,
        75 => 0xE10E9818,
        76 => 0x7F6A0DBB,
        77 => 0x086D3D2D,
        78 => 0x91646C97,
        79 => 0xE6635C01,
        80 => 0x6B6B51F4,
        81 => 0x1C6C6162,
        82 => 0x856530D8,
        83 => 0xF262004E,
        84 => 0x6C0695ED,
        85 => 0x1B01A57B,
        86 => 0x8208F4C1,
        87 => 0xF50FC457,
        88 => 0x65B0D9C6,
        89 => 0x12B7E950,
        90 => 0x8BBEB8EA,
        91 => 0xFCB9887C,
        92 => 0x62DD1DDF,
        93 => 0x15DA2D49,
        94 => 0x8CD37CF3,
        95 => 0xFBD44C65,
        96 => 0x4DB26158,
        97 => 0x3AB551CE,
        98 => 0xA3BC0074,
        99 => 0xD4BB30E2,
        100 => 0x4ADFA541,
        101 => 0x3DD895D7,
        102 => 0xA4D1C46D,
        103 => 0xD3D6F4FB,
        104 => 0x4369E96A,
        105 => 0x346ED9FC,
        106 => 0xAD678846,
        107 => 0xDA60B8D0,
        108 => 0x44042D73,
        109 => 0x33031DE5,
        110 => 0xAA0A4C5F,
        111 => 0xDD0D7CC9,
        112 => 0x5005713C,
        113 => 0x270241AA,
        114 => 0xBE0B1010,
        115 => 0xC90C2086,
        116 => 0x5768B525,
        117 => 0x206F85B3,
        118 => 0xB966D409,
        119 => 0xCE61E49F,
        120 => 0x5EDEF90E,
        121 => 0x29D9C998,
        122 => 0xB0D09822,
        123 => 0xC7D7A8B4,
        124 => 0x59B33D17,
        125 => 0x2EB40D81,
        126 => 0xB7BD5C3B,
        127 => 0xC0BA6CAD,
        128 => 0xEDB88320,
        129 => 0x9ABFB3B6,
        130 => 0x03B6E20C,
        131 => 0x74B1D29A,
        132 => 0xEAD54739,
        133 => 0x9DD277AF,
        134 => 0x04DB2615,
        135 => 0x73DC1683,
        136 => 0xE3630B12,
        137 => 0x94643B84,
        138 => 0x0D6D6A3E,
        139 => 0x7A6A5AA8,
        140 => 0xE40ECF0B,
        141 => 0x9309FF9D,
        142 => 0x0A00AE27,
        143 => 0x7D079EB1,
        144 => 0xF00F9344,
        145 => 0x8708A3D2,
        146 => 0x1E01F268,
        147 => 0x6906C2FE,
        148 => 0xF762575D,
        149 => 0x806567CB,
        150 => 0x196C3671,
        151 => 0x6E6B06E7,
        152 => 0xFED41B76,
        153 => 0x89D32BE0,
        154 => 0x10DA7A5A,
        155 => 0x67DD4ACC,
        156 => 0xF9B9DF6F,
        157 => 0x8EBEEFF9,
        158 => 0x17B7BE43,
        159 => 0x60B08ED5,
        160 => 0xD6D6A3E8,
        161 => 0xA1D1937E,
        162 => 0x38D8C2C4,
        163 => 0x4FDFF252,
        164 => 0xD1BB67F1,
        165 => 0xA6BC5767,
        166 => 0x3FB506DD,
        167 => 0x48B2364B,
        168 => 0xD80D2BDA,
        169 => 0xAF0A1B4C,
        170 => 0x36034AF6,
        171 => 0x41047A60,
        172 => 0xDF60EFC3,
        173 => 0xA867DF55,
        174 => 0x316E8EEF,
        175 => 0x4669BE79,
        176 => 0xCB61B38C,
        177 => 0xBC66831A,
        178 => 0x256FD2A0,
        179 => 0x5268E236,
        180 => 0xCC0C7795,
        181 => 0xBB0B4703,
        182 => 0x220216B9,
        183 => 0x5505262F,
        184 => 0xC5BA3BBE,
        185 => 0xB2BD0B28,
        186 => 0x2BB45A92,
        187 => 0x5CB36A04,
        188 => 0xC2D7FFA7,
        189 => 0xB5D0CF31,
        190 => 0x2CD99E8B,
        191 => 0x5BDEAE1D,
        192 => 0x9B64C2B0,
        193 => 0xEC63F226,
        194 => 0x756AA39C,
        195 => 0x026D930A,
        196 => 0x9C0906A9,
        197 => 0xEB0E363F,
        198 => 0x72076785,
        199 => 0x05005713,
        200 => 0x95BF4A82,
        201 => 0xE2B87A14,
        202 => 0x7BB12BAE,
        203 => 0x0CB61B38,
        204 => 0x92D28E9B,
        205 => 0xE5D5BE0D,
        206 => 0x7CDCEFB7,
        207 => 0x0BDBDF21,
        208 => 0x86D3D2D4,
        209 => 0xF1D4E242,
        210 => 0x68DDB3F8,
        211 => 0x1FDA836E,
        212 => 0x81BE16CD,
        213 => 0xF6B9265B,
        214 => 0x6FB077E1,
        215 => 0x18B74777,
        216 => 0x88085AE6,
        217 => 0xFF0F6A70,
        218 => 0x66063BCA,
        219 => 0x11010B5C,
        220 => 0x8F659EFF,
        221 => 0xF862AE69,
        222 => 0x616BFFD3,
        223 => 0x166CCF45,
        224 => 0xA00AE278,
        225 => 0xD70DD2EE,
        226 => 0x4E048354,
        227 => 0x3903B3C2,
        228 => 0xA7672661,
        229 => 0xD06016F7,
        230 => 0x4969474D,
        231 => 0x3E6E77DB,
        232 => 0xAED16A4A,
        233 => 0xD9D65ADC,
        234 => 0x40DF0B66,
        235 => 0x37D83BF0,
        236 => 0xA9BCAE53,
        237 => 0xDEBB9EC5,
        238 => 0x47B2CF7F,
        239 => 0x30B5FFE9,
        240 => 0xBDBDF21C,
        241 => 0xCABAC28A,
        242 => 0x53B39330,
        243 => 0x24B4A3A6,
        244 => 0xBAD03605,
        245 => 0xCDD70693,
        246 => 0x54DE5729,
        247 => 0x23D967BF,
        248 => 0xB3667A2E,
        249 => 0xC4614AB8,
        250 => 0x5D681B02,
        251 => 0x2A6F2B94,
        252 => 0xB40BBE37,
        253 => 0xC30C8EA1,
        254 => 0x5A05DF1B,
        255 => 0x2D02EF8D,
        _ => 0,
    }
}

/// One byte of the table-driven CRC-32 update.
pub fn crc_update_byte(crc: u32, b: u8) -> (r: u32)
    ensures
        r == crc_update(crc, b),
{
    let x = crc ^ (b as u32);
    proof {
        lemma_crc_step8_split(x);
        assert((crc ^ (b as u32)) >> 8u32 == crc >> 8u32) by (bit_vector);
        assert(x & 0xFFu32 < 256u32) by (bit_vector);
    }
    table_entry(x & 0xFF) ^ (crc >> 8)
}


/// The little-endian bytes of a 32-bit value.
pub open spec fn le_bytes(v: i32) -> Seq<u8> {
    let u = v as u32;
    seq![
        (u & 0xFFu32) as u8,
        ((u >> 8u32) & 0xFFu32) as u8,
        ((u >> 16u32) & 0xFFu32) as u8,
        ((u >> 24u32) & 0xFFu32) as u8,
    ]
}

/// The little-endian bytes of each value, in order.
pub open spec fn values_bytes(vals: Seq<i32>) -> Seq<u8>
    decreases vals.len(),
{
    if vals.len() == 0 {
        Seq::empty()
    } else {
        values_bytes(vals.drop_last()) + le_bytes(vals.last())
    }
}

/// Absorbs the four little-endian bytes of `val`.
pub fn crc_feed(crc: u32, val: i32) -> (r: u32)
    ensures
        r == crc_fold(crc, le_bytes(val)),
{
    let u = #[verifier::truncate] (val as u32);
    let b0 = #[verifier::truncate] ((u & 0xFF) as u8);
    let b1 = #[verifier::truncate] (((u >> 8) & 0xFF) as u8);
    let b2 = #[verifier::truncate] (((u >> 16) & 0xFF) as u8);
    let b3 = #[verifier::truncate] (((u >> 24) & 0xFF) as u8);
    let c0 = crc_update_byte(crc, b0);
    let c1 = crc_update_byte(c0, b1);
    let c2 = crc_update_byte(c1, b2);
    let c3 = crc_update_byte(c2, b3);
    proof {
        let bs = le_bytes(val);
        assert(bs.drop_last().drop_last().drop_last().drop_last() =~= Seq::<u8>::empty());
        assert(bs.drop_last().drop_last().drop_last() =~= seq![b0]);
        assert(bs.drop_last().drop_last() =~= seq![b0, b1]);
        assert(bs.drop_last() =~= seq![b0, b1, b2]);
        assert(seq![b0].drop_last() =~= Seq::<u8>::empty());
        assert(seq![b0, b1].drop_last() =~= seq![b0]);
        assert(seq![b0, b1, b2].drop_last() =~= seq![b0, b1]);
        assert(crc_fold(crc, Seq::<u8>::empty()) == crc);
        assert(crc_fold(crc, seq![b0]) == c0);
        assert(crc_fold(crc, seq![b0, b1]) == c1);
        assert(crc_fold(crc, seq![b0, b1, b2]) == c2);
    }
    c3
}

/// CRC-32 of the little-endian bytes of a list of values.
pub fn crc32_of_values(vals: &Vec<i32>) -> (r: u32)
    ensures
        r == crc32(values_bytes(vals@)),
{
    let mut crc: u32 = 0xFFFF_FFFF;
    let mut i: usize = 0;
    while i < vals.len()
        invariant
            i <= vals@.len(),
            crc == crc_fold(0xFFFF_FFFFu32, values_bytes(vals@.take(i as int))),
        decreases vals@.len() - i,
    {
        proof {
            assert(vals@.take(i as int + 1).drop_last() =~= vals@.take(i as int));
            lemma_crc_fold_append(
                0xFFFF_FFFFu32,
                values_bytes(vals@.take(i as int)),
                le_bytes(vals@[i as int]),
            );
        }
        crc = crc_feed(crc, vals[i]);
        i += 1;
    }
    assert(vals@.take(i as int) =~= vals@);
    crc ^ 0xFFFF_FFFF
}

} // verus!
