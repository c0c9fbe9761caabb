//! The registry of link-layer types: which medium a numeric code names.

use vstd::prelude::*;

verus! {

/// Link-layer medium of the captured packets, with `UNKNOWN` for every code
/// that names none.
#[allow(non_camel_case_types)]
#[derive(Debug, PartialEq, Eq, Clone, Copy, Structural)]
pub enum LinkType {
    NULL,
    ETHERNET,
    AX25,
    IEEE802_5,
    ARCNET_BSD,
    SLIP,
    PPP,
    FDDI,
    PPP_HDLC,
    PPP_ETHER,
    ATM_RFC1483,
    RAW,
    C_HDLC,
    IEEE802_11,
    FRELAY,
    LOOP,
    LINUX_SLL,
    LTALK,
    PFLOG,
    IEEE802_11_PRISM,
    IP_OVER_FC,
    SUNATM,
    IEEE802_11_RADIOTAP,
    ARCNET_LINUX,
    APPLE_IP_OVER_IEEE1394,
    MTP2_WITH_PHDR,
    MTP2,
    MTP3,
    SCCP,
    DOCSIS,
    LINUX_IRDA,
    USER0,
    USER1,
    USER2,
    USER3,
    USER4,
    USER5,
    USER6,
    USER7,
    USER8,
    USER9,
    USER10,
    USER11,
    USER12,
    USER13,
    USER14,
    USER15,
    IEEE802_11_AVS,
    BACNET_MS_TP,
    PPP_PPPD,
    GPRS_LLC,
    GPF_T,
    GPF_F,
    LINUX_LAPD,
    BLUETOOTH_HCI_H4,
    USB_LINUX,
    PPI,
    IEEE802_15_4,
    SITA,
    ERF,
    BLUETOOTH_HCI_H4_WITH_PHDR,
    AX25_KISS,
    LAPD,
    PPP_WITH_DIR,
    C_HDLC_WITH_DIR,
    FRELAY_WITH_DIR,
    IPMB_LINUX,
    IEEE802_15_4_NONASK_PHY,
    USB_LINUX_MMAPPED,
    FC_2,
    FC_2_WITH_FRAME_DELIMS,
    IPNET,
    CAN_SOCKETCAN,
    IPV4,
    IPV6,
    IEEE802_15_4_NOFCS,
    DBUS,
    DVB_CI,
    MUX27010,
    STANAG_5066_D_PDU,
    NFLOG,
    NETANALYZER,
    NETANALYZER_TRANSPARENT,
    IPOIB,
    MPEG_2_TS,
    NG40,
    NFC_LLCP,
    INFINIBAND,
    SCTP,
    USBPCAP,
    RTAC_SERIAL,
    BLUETOOTH_LE_LL,
    NETLINK,
    BLUETOOTH_LINUX_MONITOR,
    BLUETOOTH_BREDR_BB,
    BLUETOOTH_LE_LL_WITH_PHDR,
    PROFIBUS_DL,
    PKTAP,
    EPON,
    IPMI_HPM_2,
    ZWAVE_R1_R2,
    ZWAVE_R3,
    WATTSTOPPER_DLM,
    ISO_14443,
    RDS,
    USB_DARWIN,
    SDLC,
    UNKNOWN,
}

/// The link type that the code `n` names; `UNKNOWN` where it names none.
pub open spec fn classify(n: u32) -> LinkType {
    match n {
        0 => LinkType::NULL,
        1 => LinkType::ETHERNET,
        3 => LinkType::AX25,
        6 => LinkType::IEEE802_5,
        7 => LinkType::ARCNET_BSD,
        8 => LinkType::SLIP,
        9 => LinkType::PPP,
        10 => LinkType::FDDI,
        50 => LinkType::PPP_HDLC,
        51 => LinkType::PPP_ETHER,
        100 => LinkType::ATM_RFC1483,
        101 => LinkType::RAW,
        104 => LinkType::C_HDLC,
        105 => LinkType::IEEE802_11,
        107 => LinkType::FRELAY,
        108 => LinkType::LOOP,
        113 => LinkType::LINUX_SLL,
        114 => LinkType::LTALK,
        117 => LinkType::PFLOG,
        119 => LinkType::IEEE802_11_PRISM,
        122 => LinkType::IP_OVER_FC,
        123 => LinkType::SUNATM,
        127 => LinkType::IEEE802_11_RADIOTAP,
        129 => LinkType::ARCNET_LINUX,
        138 => LinkType::APPLE_IP_OVER_IEEE1394,
        139 => LinkType::MTP2_WITH_PHDR,
        140 => LinkType::MTP2,
        141 => LinkType::MTP3,
        142 => LinkType::SCCP,
        143 => LinkType::DOCSIS,
        144 => LinkType::LINUX_IRDA,
        147 => LinkType::USER0,
        148 => LinkType::USER1,
        149 => LinkType::USER2,
        150 => LinkType::USER3,
        151 => LinkType::USER4,
        152 => LinkType::USER5,
        153 => LinkType::USER6,
        154 => LinkType::USER7,
        155 => LinkType::USER8,
        156 => LinkType::USER9,
        157 => LinkType::USER10,
        158 => LinkType::USER11,
        159 => LinkType::USER12,
        160 => LinkType::USER13,
        161 => LinkType::USER14,
        162 => LinkType::USER15,
        163 => LinkType::IEEE802_11_AVS,
        165 => LinkType::BACNET_MS_TP,
        166 => LinkType::PPP_PPPD,
        169 => LinkType::GPRS_LLC,
        170 => LinkType::GPF_T,
        171 => LinkType::GPF_F,
        177 => LinkType::LINUX_LAPD,
        187 => LinkType::BLUETOOTH_HCI_H4,
        189 => LinkType::USB_LINUX,
        192 => LinkType::PPI,
        195 => LinkType::IEEE802_15_4,
        196 => LinkType::SITA,
        197 => LinkType::ERF,
        201 => LinkType::BLUETOOTH_HCI_H4_WITH_PHDR,
        202 => LinkType::AX25_KISS,
        203 => LinkType::LAPD,
        204 => LinkType::PPP_WITH_DIR,
        205 => LinkType::C_HDLC_WITH_DIR,
        206 => LinkType::FRELAY_WITH_DIR,
        209 => LinkType::IPMB_LINUX,
        215 => LinkType::IEEE802_15_4_NONASK_PHY,
        220 => LinkType::USB_LINUX_MMAPPED,
        224 => LinkType::FC_2,
        225 => LinkType::FC_2_WITH_FRAME_DELIMS,
        226 => LinkType::IPNET,
        227 => LinkType::CAN_SOCKETCAN,
        228 => LinkType::IPV4,
        229 => LinkType::IPV6,
        230 => LinkType::IEEE802_15_4_NOFCS,
        231 => LinkType::DBUS,
        235 => LinkType::DVB_CI,
        236 => LinkType::MUX27010,
        237 => LinkType::STANAG_5066_D_PDU,
        239 => LinkType::NFLOG,
        240 => LinkType::NETANALYZER,
        241 => LinkType::NETANALYZER_TRANSPARENT,
        242 => LinkType::IPOIB,
        243 => LinkType::MPEG_2_TS,
        244 => LinkType::NG40,
        245 => LinkType::NFC_LLCP,
        247 => LinkType::INFINIBAND,
        248 => LinkType::SCTP,
        249 => LinkType::USBPCAP,
        250 => LinkType::RTAC_SERIAL,
        251 => LinkType::BLUETOOTH_LE_LL,
        253 => LinkType::NETLINK,
        254 => LinkType::BLUETOOTH_LINUX_MONITOR,
        255 => LinkType::BLUETOOTH_BREDR_BB,
        256 => LinkType::BLUETOOTH_LE_LL_WITH_PHDR,
        257 => LinkType::PROFIBUS_DL,
        258 => LinkType::PKTAP,
        259 => LinkType::EPON,
        260 => LinkType::IPMI_HPM_2,
        261 => LinkType::ZWAVE_R1_R2,
        262 => LinkType::ZWAVE_R3,
        263 => LinkType::WATTSTOPPER_DLM,
        264 => LinkType::ISO_14443,
        265 => LinkType::RDS,
        266 => LinkType::USB_DARWIN,
        268 => LinkType::SDLC,
        _ => LinkType::UNKNOWN,
    }
}

impl LinkType {
    /// The numeric code of a known link type; `None` for `UNKNOWN`.
    pub open spec fn code(self) -> Option<u32> {
        match self {
            LinkType::NULL => Some(0u32),
            LinkType::ETHERNET => Some(1u32),
            LinkType::AX25 => Some(3u32),
            LinkType::IEEE802_5 => Some(6u32),
            LinkType::ARCNET_BSD => Some(7u32),
            LinkType::SLIP => Some(8u32),
            LinkType::PPP => Some(9u32),
            LinkType::FDDI => Some(10u32),
            LinkType::PPP_HDLC => Some(50u32),
            LinkType::PPP_ETHER => Some(51u32),
            LinkType::ATM_RFC1483 => Some(100u32),
            LinkType::RAW => Some(101u32),
            LinkType::C_HDLC => Some(104u32),
            LinkType::IEEE802_11 => Some(105u32),
            LinkType::FRELAY => Some(107u32),
            LinkType::LOOP => Some(108u32),
            LinkType::LINUX_SLL => Some(113u32),
            LinkType::LTALK => Some(114u32),
            LinkType::PFLOG => Some(117u32),
            LinkType::IEEE802_11_PRISM => Some(119u32),
            LinkType::IP_OVER_FC => Some(122u32),
            LinkType::SUNATM => Some(123u32),
            LinkType::IEEE802_11_RADIOTAP => Some(127u32),
            LinkType::ARCNET_LINUX => Some(129u32),
            LinkType::APPLE_IP_OVER_IEEE1394 => Some(138u32),
            LinkType::MTP2_WITH_PHDR => Some(139u32),
            LinkType::MTP2 => Some(140u32),
            LinkType::MTP3 => Some(141u32),
            LinkType::SCCP => Some(142u32),
            LinkType::DOCSIS => Some(143u32),
            LinkType::LINUX_IRDA => Some(144u32),
            LinkType::USER0 => Some(147u32),
            LinkType::USER1 => Some(148u32),
            LinkType::USER2 => Some(149u32),
            LinkType::USER3 => Some(150u32),
            LinkType::USER4 => Some(151u32),
            LinkType::USER5 => Some(152u32),
            LinkType::USER6 => Some(153u32),
            LinkType::USER7 => Some(154u32),
            LinkType::USER8 => Some(155u32),
            LinkType::USER9 => Some(156u32),
            LinkType::USER10 => Some(157u32),
            LinkType::USER11 => Some(158u32),
            LinkType::USER12 => Some(159u32),
            LinkType::USER13 => Some(160u32),
            LinkType::USER14 => Some(161u32),
            LinkType::USER15 => Some(162u32),
            LinkType::IEEE802_11_AVS => Some(163u32),
            LinkType::BACNET_MS_TP => Some(165u32),
            LinkType::PPP_PPPD => Some(166u32),
            LinkType::GPRS_LLC => Some(169u32),
            LinkType::GPF_T => Some(170u32),
            LinkType::GPF_F => Some(171u32),
            LinkType::LINUX_LAPD => Some(177u32),
            LinkType::BLUETOOTH_HCI_H4 => Some(187u32),
            LinkType::USB_LINUX => Some(189u32),
            LinkType::PPI => Some(192u32),
            LinkType::IEEE802_15_4 => Some(195u32),
            LinkType::SITA => Some(196u32),
            LinkType::ERF => Some(197u32),
            LinkType::BLUETOOTH_HCI_H4_WITH_PHDR => Some(201u32),
            LinkType::AX25_KISS => Some(202u32),
            LinkType::LAPD => Some(203u32),
            LinkType::PPP_WITH_DIR => Some(204u32),
            LinkType::C_HDLC_WITH_DIR => Some(205u32),
            LinkType::FRELAY_WITH_DIR => Some(206u32),
            LinkType::IPMB_LINUX => Some(209u32),
            LinkType::IEEE802_15_4_NONASK_PHY => Some(215u32),
            LinkType::USB_LINUX_MMAPPED => Some(220u32),
            LinkType::FC_2 => Some(224u32),
            LinkType::FC_2_WITH_FRAME_DELIMS => Some(225u32),
            LinkType::IPNET => Some(226u32),
            LinkType::CAN_SOCKETCAN => Some(227u32),
            LinkType::IPV4 => Some(228u32),
            LinkType::IPV6 => Some(229u32),
            LinkType::IEEE802_15_4_NOFCS => Some(230u32),
            LinkType::DBUS => Some(231u32),
            LinkType::DVB_CI => Some(235u32),
            LinkType::MUX27010 => Some(236u32),
            LinkType::STANAG_5066_D_PDU => Some(237u32),
            LinkType::NFLOG => Some(239u32),
            LinkType::NETANALYZER => Some(240u32),
            LinkType::NETANALYZER_TRANSPARENT => Some(241u32),
            LinkType::IPOIB => Some(242u32),
            LinkType::MPEG_2_TS => Some(243u32),
            LinkType::NG40 => Some(244u32),
            LinkType::NFC_LLCP => Some(245u32),
            LinkType::INFINIBAND => Some(247u32),
            LinkType::SCTP => Some(248u32),
            LinkType::USBPCAP => Some(249u32),
            LinkType::RTAC_SERIAL => Some(250u32),
            LinkType::BLUETOOTH_LE_LL => Some(251u32),
            LinkType::NETLINK => Some(253u32),
            LinkType::BLUETOOTH_LINUX_MONITOR => Some(254u32),
            LinkType::BLUETOOTH_BREDR_BB => Some(255u32),
            LinkType::BLUETOOTH_LE_LL_WITH_PHDR => Some(256u32),
            LinkType::PROFIBUS_DL => Some(257u32),
            LinkType::PKTAP => Some(258u32),
            LinkType::EPON => Some(259u32),
            LinkType::IPMI_HPM_2 => Some(260u32),
            LinkType::ZWAVE_R1_R2 => Some(261u32),
            LinkType::ZWAVE_R3 => Some(262u32),
            LinkType::WATTSTOPPER_DLM => Some(263u32),
            LinkType::ISO_14443 => Some(264u32),
            LinkType::RDS => Some(265u32),
            LinkType::USB_DARWIN => Some(266u32),
            LinkType::SDLC => Some(268u32),
            LinkType::UNKNOWN => None,
        }
    }
}

impl From<u32> for LinkType {
    /// Looks the code up in the registry. Every code has an answer.
    fn from(n: u32) -> (r: LinkType) {
        match n {
            0 => LinkType::NULL,
            1 => LinkType::ETHERNET,
            3 => LinkType::AX25,
            6 => LinkType::IEEE802_5,
            7 => LinkType::ARCNET_BSD,
            8 => LinkType::SLIP,
            9 => LinkType::PPP,
            10 => LinkType::FDDI,
            50 => LinkType::PPP_HDLC,
            51 => LinkType::PPP_ETHER,
            100 => LinkType::ATM_RFC1483,
            101 => LinkType::RAW,
            104 => LinkType::C_HDLC,
            105 => LinkType::IEEE802_11,
            107 => LinkType::FRELAY,
            108 => LinkType::LOOP,
            113 => LinkType::LINUX_SLL,
            114 => LinkType::LTALK,
            117 => LinkType::PFLOG,
            119 => LinkType::IEEE802_11_PRISM,
            122 => LinkType::IP_OVER_FC,
            123 => LinkType::SUNATM,
            127 => LinkType::IEEE802_11_RADIOTAP,
            129 => LinkType::ARCNET_LINUX,
            138 => LinkType::APPLE_IP_OVER_IEEE1394,
            139 => LinkType::MTP2_WITH_PHDR,
            140 => LinkType::MTP2,
            141 => LinkType::MTP3,
            142 => LinkType::SCCP,
            143 => LinkType::DOCSIS,
            144 => LinkType::LINUX_IRDA,
            147 => LinkType::USER0,
            148 => LinkType::USER1,
            149 => LinkType::USER2,
            150 => LinkType::USER3,
            151 => LinkType::USER4,
            152 => LinkType::USER5,
            153 => LinkType::USER6,
            154 => LinkType::USER7,
            155 => LinkType::USER8,
            156 => LinkType::USER9,
            157 => LinkType::USER10,
            158 => LinkType::USER11,
            159 => LinkType::USER12,
            160 => LinkType::USER13,
            161 => LinkType::USER14,
            162 => LinkType::USER15,
            163 => LinkType::IEEE802_11_AVS,
            165 => LinkType::BACNET_MS_TP,
            166 => LinkType::PPP_PPPD,
            169 => LinkType::GPRS_LLC,
            170 => LinkType::GPF_T,
            171 => LinkType::GPF_F,
            177 => LinkType::LINUX_LAPD,
            187 => LinkType::BLUETOOTH_HCI_H4,
            189 => LinkType::USB_LINUX,
            192 => LinkType::PPI,
            195 => LinkType::IEEE802_15_4,
            196 => LinkType::SITA,
            197 => LinkType::ERF,
            201 => LinkType::BLUETOOTH_HCI_H4_WITH_PHDR,
            202 => LinkType::AX25_KISS,
            203 => LinkType::LAPD,
            204 => LinkType::PPP_WITH_DIR,
            205 => LinkType::C_HDLC_WITH_DIR,
            206 => LinkType::FRELAY_WITH_DIR,
            209 => LinkType::IPMB_LINUX,
            215 => LinkType::IEEE802_15_4_NONASK_PHY,
            220 => LinkType::USB_LINUX_MMAPPED,
            224 => LinkType::FC_2,
            225 => LinkType::FC_2_WITH_FRAME_DELIMS,
            226 => LinkType::IPNET,
            227 => LinkType::CAN_SOCKETCAN,
            228 => LinkType::IPV4,
            229 => LinkType::IPV6,
            230 => LinkType::IEEE802_15_4_NOFCS,
            231 => LinkType::DBUS,
            235 => LinkType::DVB_CI,
            236 => LinkType::MUX27010,
            237 => LinkType::STANAG_5066_D_PDU,
            239 => LinkType::NFLOG,
            240 => LinkType::NETANALYZER,
            241 => LinkType::NETANALYZER_TRANSPARENT,
            242 => LinkType::IPOIB,
            243 => LinkType::MPEG_2_TS,
            244 => LinkType::NG40,
            245 => LinkType::NFC_LLCP,
            247 => LinkType::INFINIBAND,
            248 => LinkType::SCTP,
            249 => LinkType::USBPCAP,
            250 => LinkType::RTAC_SERIAL,
            251 => LinkType::BLUETOOTH_LE_LL,
            253 => LinkType::NETLINK,
            254 => LinkType::BLUETOOTH_LINUX_MONITOR,
            255 => LinkType::BLUETOOTH_BREDR_BB,
            256 => LinkType::BLUETOOTH_LE_LL_WITH_PHDR,
            257 => LinkType::PROFIBUS_DL,
            258 => LinkType::PKTAP,
            259 => LinkType::EPON,
            260 => LinkType::IPMI_HPM_2,
            261 => LinkType::ZWAVE_R1_R2,
            262 => LinkType::ZWAVE_R3,
            263 => LinkType::WATTSTOPPER_DLM,
            264 => LinkType::ISO_14443,
            265 => LinkType::RDS,
            266 => LinkType::USB_DARWIN,
            268 => LinkType::SDLC,
            _ => LinkType::UNKNOWN,
        }
    }
}

impl vstd::std_specs::convert::FromSpecImpl<u32> for LinkType {
    open spec fn obeys_from_spec() -> bool {
        true
    }

    open spec fn from_spec(n: u32) -> LinkType {
        classify(n)
    }
}

/// A code is in the registry exactly when it is the code of the link type it
/// is classified as: known link types and their codes correspond one to one.
pub proof fn lemma_classify_inverts_code(n: u32, t: LinkType)
    ensures
        classify(n) == t && t != LinkType::UNKNOWN <==> t.code() == Some(n),
{
}

/// Two codes that name the same known link type are the same code.
pub proof fn lemma_classify_injective(a: u32, b: u32)
    requires
        classify(a) == classify(b),
        classify(a) != LinkType::UNKNOWN,
    ensures
        a == b,
{
    lemma_classify_inverts_code(a, classify(a));
    lemma_classify_inverts_code(b, classify(b));
}

} // verus!
