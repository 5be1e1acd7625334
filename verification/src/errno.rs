//! Operating-system error numbers and their place in the error taxonomy.

use crate::error::Error;
use vstd::prelude::*;
use vstd::std_specs::convert::FromSpecImpl;

verus! {

/// A class of operating-system error, named as on Linux.
#[allow(non_camel_case_types)]
#[derive(Clone, Copy, Debug, PartialEq, Eq)]
pub enum Errno {
    UnknownErrno,
    EPERM,
    ENOENT,
    ESRCH,
    EINTR,
    EIO,
    ENXIO,
    E2BIG,
    ENOEXEC,
    EBADF,
    ECHILD,
    EAGAIN,
    ENOMEM,
    EACCES,
    EFAULT,
    ENOTBLK,
    EBUSY,
    EEXIST,
    EXDEV,
    ENODEV,
    ENOTDIR,
    EISDIR,
    EINVAL,
    ENFILE,
    EMFILE,
    ENOTTY,
    ETXTBSY,
    EFBIG,
    ENOSPC,
    ESPIPE,
    EROFS,
    EMLINK,
    EPIPE,
    EDOM,
    ERANGE,
    EDEADLK,
    ENAMETOOLONG,
    ENOLCK,
    ENOSYS,
    ENOTEMPTY,
    ELOOP,
    ENOMSG,
    EIDRM,
    ECHRNG,
    EL2NSYNC,
    EL3HLT,
    EL3RST,
    ELNRNG,
    EUNATCH,
    ENOCSI,
    EL2HLT,
    EBADE,
    EBADR,
    EXFULL,
    ENOANO,
    EBADRQC,
    EBADSLT,
    EBFONT,
    ENOSTR,
    ENODATA,
    ETIME,
    ENOSR,
    ENONET,
    ENOPKG,
    EREMOTE,
    ENOLINK,
    EADV,
    ESRMNT,
    ECOMM,
    EPROTO,
    EMULTIHOP,
    EDOTDOT,
    EBADMSG,
    EOVERFLOW,
    ENOTUNIQ,
    EBADFD,
    EREMCHG,
    ELIBACC,
    ELIBBAD,
    ELIBSCN,
    ELIBMAX,
    ELIBEXEC,
    EILSEQ,
    ERESTART,
    ESTRPIPE,
    EUSERS,
    ENOTSOCK,
    EDESTADDRREQ,
    EMSGSIZE,
    EPROTOTYPE,
    ENOPROTOOPT,
    EPROTONOSUPPORT,
    ESOCKTNOSUPPORT,
    EOPNOTSUPP,
    EPFNOSUPPORT,
    EAFNOSUPPORT,
    EADDRINUSE,
    EADDRNOTAVAIL,
    ENETDOWN,
    ENETUNREACH,
    ENETRESET,
    ECONNABORTED,
    ECONNRESET,
    ENOBUFS,
    EISCONN,
    ENOTCONN,
    ESHUTDOWN,
    ETOOMANYREFS,
    ETIMEDOUT,
    ECONNREFUSED,
    EHOSTDOWN,
    EHOSTUNREACH,
    EALREADY,
    EINPROGRESS,
    ESTALE,
    EUCLEAN,
    ENOTNAM,
    ENAVAIL,
    EISNAM,
    EREMOTEIO,
    EDQUOT,
    ENOMEDIUM,
    EMEDIUMTYPE,
    ECANCELED,
    ENOKEY,
    EKEYEXPIRED,
    EKEYREVOKED,
    EKEYREJECTED,
    EOWNERDEAD,
    ENOTRECOVERABLE,
    ERFKILL,
    EHWPOISON,
}

impl Errno {
    /// The sub-code under which this class travels in [`Error::NixError`]:
    /// its position in the list of classes, `0` for the unknown class.
    pub open spec fn code(self) -> u8 {
        match self {
            Errno::UnknownErrno => 0,
            Errno::EPERM => 1,
            Errno::ENOENT => 2,
            Errno::ESRCH => 3,
            Errno::EINTR => 4,
            Errno::EIO => 5,
            Errno::ENXIO => 6,
            Errno::E2BIG => 7,
            Errno::ENOEXEC => 8,
            Errno::EBADF => 9,
            Errno::ECHILD => 10,
            Errno::EAGAIN => 11,
            Errno::ENOMEM => 12,
            Errno::EACCES => 13,
            Errno::EFAULT => 14,
            Errno::ENOTBLK => 15,
            Errno::EBUSY => 16,
            Errno::EEXIST => 17,
            Errno::EXDEV => 18,
            Errno::ENODEV => 19,
            Errno::ENOTDIR => 20,
            Errno::EISDIR => 21,
            Errno::EINVAL => 22,
            Errno::ENFILE => 23,
            Errno::EMFILE => 24,
            Errno::ENOTTY => 25,
            Errno::ETXTBSY => 26,
            Errno::EFBIG => 27,
            Errno::ENOSPC => 28,
            Errno::ESPIPE => 29,
            Errno::EROFS => 30,
            Errno::EMLINK => 31,
            Errno::EPIPE => 32,
            Errno::EDOM => 33,
            Errno::ERANGE => 34,
            Errno::EDEADLK => 35,
            Errno::ENAMETOOLONG => 36,
            Errno::ENOLCK => 37,
            Errno::ENOSYS => 38,
            Errno::ENOTEMPTY => 39,
            Errno::ELOOP => 40,
            Errno::ENOMSG => 41,
            Errno::EIDRM => 42,
            Errno::ECHRNG => 43,
            Errno::EL2NSYNC => 44,
            Errno::EL3HLT => 45,
            Errno::EL3RST => 46,
            Errno::ELNRNG => 47,
            Errno::EUNATCH => 48,
            Errno::ENOCSI => 49,
            Errno::EL2HLT => 50,
            Errno::EBADE => 51,
            Errno::EBADR => 52,
            Errno::EXFULL => 53,
            Errno::ENOANO => 54,
            Errno::EBADRQC => 55,
            Errno::EBADSLT => 56,
            Errno::EBFONT => 57,
            Errno::ENOSTR => 58,
            Errno::ENODATA => 59,
            Errno::ETIME => 60,
            Errno::ENOSR => 61,
            Errno::ENONET => 62,
            Errno::ENOPKG => 63,
            Errno::EREMOTE => 64,
            Errno::ENOLINK => 65,
            Errno::EADV => 66,
            Errno::ESRMNT => 67,
            Errno::ECOMM => 68,
            Errno::EPROTO => 69,
            Errno::EMULTIHOP => 70,
            Errno::EDOTDOT => 71,
            Errno::EBADMSG => 72,
            Errno::EOVERFLOW => 73,
            Errno::ENOTUNIQ => 74,
            Errno::EBADFD => 75,
            Errno::EREMCHG => 76,
            Errno::ELIBACC => 77,
            Errno::ELIBBAD => 78,
            Errno::ELIBSCN => 79,
            Errno::ELIBMAX => 80,
            Errno::ELIBEXEC => 81,
            Errno::EILSEQ => 82,
            Errno::ERESTART => 83,
            Errno::ESTRPIPE => 84,
            Errno::EUSERS => 85,
            Errno::ENOTSOCK => 86,
            Errno::EDESTADDRREQ => 87,
            Errno::EMSGSIZE => 88,
            Errno::EPROTOTYPE => 89,
            Errno::ENOPROTOOPT => 90,
            Errno::EPROTONOSUPPORT => 91,
            Errno::ESOCKTNOSUPPORT => 92,
            Errno::EOPNOTSUPP => 93,
            Errno::EPFNOSUPPORT => 94,
            Errno::EAFNOSUPPORT => 95,
            Errno::EADDRINUSE => 96,
            Errno::EADDRNOTAVAIL => 97,
            Errno::ENETDOWN => 98,
            Errno::ENETUNREACH => 99,
            Errno::ENETRESET => 100,
            Errno::ECONNABORTED => 101,
            Errno::ECONNRESET => 102,
            Errno::ENOBUFS => 103,
            Errno::EISCONN => 104,
            Errno::ENOTCONN => 105,
            Errno::ESHUTDOWN => 106,
            Errno::ETOOMANYREFS => 107,
            Errno::ETIMEDOUT => 108,
            Errno::ECONNREFUSED => 109,
            Errno::EHOSTDOWN => 110,
            Errno::EHOSTUNREACH => 111,
            Errno::EALREADY => 112,
            Errno::EINPROGRESS => 113,
            Errno::ESTALE => 114,
            Errno::EUCLEAN => 115,
            Errno::ENOTNAM => 116,
            Errno::ENAVAIL => 117,
            Errno::EISNAM => 118,
            Errno::EREMOTEIO => 119,
            Errno::EDQUOT => 120,
            Errno::ENOMEDIUM => 121,
            Errno::EMEDIUMTYPE => 122,
            Errno::ECANCELED => 123,
            Errno::ENOKEY => 124,
            Errno::EKEYEXPIRED => 125,
            Errno::EKEYREVOKED => 126,
            Errno::EKEYREJECTED => 127,
            Errno::EOWNERDEAD => 128,
            Errno::ENOTRECOVERABLE => 129,
            Errno::ERFKILL => 130,
            Errno::EHWPOISON => 131,
        }
    }

    /// The class that travels under `code`; the unknown class where there is
    /// none.
    pub open spec fn with_code(code: u8) -> Errno {
        match code {
            1 => Errno::EPERM,
            2 => Errno::ENOENT,
            3 => Errno::ESRCH,
            4 => Errno::EINTR,
            5 => Errno::EIO,
            6 => Errno::ENXIO,
            7 => Errno::E2BIG,
            8 => Errno::ENOEXEC,
            9 => Errno::EBADF,
            10 => Errno::ECHILD,
            11 => Errno::EAGAIN,
            12 => Errno::ENOMEM,
            13 => Errno::EACCES,
            14 => Errno::EFAULT,
            15 => Errno::ENOTBLK,
            16 => Errno::EBUSY,
            17 => Errno::EEXIST,
            18 => Errno::EXDEV,
            19 => Errno::ENODEV,
            20 => Errno::ENOTDIR,
            21 => Errno::EISDIR,
            22 => Errno::EINVAL,
            23 => Errno::ENFILE,
            24 => Errno::EMFILE,
            25 => Errno::ENOTTY,
            26 => Errno::ETXTBSY,
            27 => Errno::EFBIG,
            28 => Errno::ENOSPC,
            29 => Errno::ESPIPE,
            30 => Errno::EROFS,
            31 => Errno::EMLINK,
            32 => Errno::EPIPE,
            33 => Errno::EDOM,
            34 => Errno::ERANGE,
            35 => Errno::EDEADLK,
            36 => Errno::ENAMETOOLONG,
            37 => Errno::ENOLCK,
            38 => Errno::ENOSYS,
            39 => Errno::ENOTEMPTY,
            40 => Errno::ELOOP,
            41 => Errno::ENOMSG,
            42 => Errno::EIDRM,
            43 => Errno::ECHRNG,
            44 => Errno::EL2NSYNC,
            45 => Errno::EL3HLT,
            46 => Errno::EL3RST,
            47 => Errno::ELNRNG,
            48 => Errno::EUNATCH,
            49 => Errno::ENOCSI,
            50 => Errno::EL2HLT,
            51 => Errno::EBADE,
            52 => Errno::EBADR,
            53 => Errno::EXFULL,
            54 => Errno::ENOANO,
            55 => Errno::EBADRQC,
            56 => Errno::EBADSLT,
            57 => Errno::EBFONT,
            58 => Errno::ENOSTR,
            59 => Errno::ENODATA,
            60 => Errno::ETIME,
            61 => Errno::ENOSR,
            62 => Errno::ENONET,
            63 => Errno::ENOPKG,
            64 => Errno::EREMOTE,
            65 => Errno::ENOLINK,
            66 => Errno::EADV,
            67 => Errno::ESRMNT,
            68 => Errno::ECOMM,
            69 => Errno::EPROTO,
            70 => Errno::EMULTIHOP,
            71 => Errno::EDOTDOT,
            72 => Errno::EBADMSG,
            73 => Errno::EOVERFLOW,
            74 => Errno::ENOTUNIQ,
            75 => Errno::EBADFD,
            76 => Errno::EREMCHG,
            77 => Errno::ELIBACC,
            78 => Errno::ELIBBAD,
            79 => Errno::ELIBSCN,
            80 => Errno::ELIBMAX,
            81 => Errno::ELIBEXEC,
            82 => Errno::EILSEQ,
            83 => Errno::ERESTART,
            84 => Errno::ESTRPIPE,
            85 => Errno::EUSERS,
            86 => Errno::ENOTSOCK,
            87 => Errno::EDESTADDRREQ,
            88 => Errno::EMSGSIZE,
            89 => Errno::EPROTOTYPE,
            90 => Errno::ENOPROTOOPT,
            91 => Errno::EPROTONOSUPPORT,
            92 => Errno::ESOCKTNOSUPPORT,
            93 => Errno::EOPNOTSUPP,
            94 => Errno::EPFNOSUPPORT,
            95 => Errno::EAFNOSUPPORT,
            96 => Errno::EADDRINUSE,
            97 => Errno::EADDRNOTAVAIL,
            98 => Errno::ENETDOWN,
            99 => Errno::ENETUNREACH,
            100 => Errno::ENETRESET,
            101 => Errno::ECONNABORTED,
            102 => Errno::ECONNRESET,
            103 => Errno::ENOBUFS,
            104 => Errno::EISCONN,
            105 => Errno::ENOTCONN,
            106 => Errno::ESHUTDOWN,
            107 => Errno::ETOOMANYREFS,
            108 => Errno::ETIMEDOUT,
            109 => Errno::ECONNREFUSED,
            110 => Errno::EHOSTDOWN,
            111 => Errno::EHOSTUNREACH,
            112 => Errno::EALREADY,
            113 => Errno::EINPROGRESS,
            114 => Errno::ESTALE,
            115 => Errno::EUCLEAN,
            116 => Errno::ENOTNAM,
            117 => Errno::ENAVAIL,
            118 => Errno::EISNAM,
            119 => Errno::EREMOTEIO,
            120 => Errno::EDQUOT,
            121 => Errno::ENOMEDIUM,
            122 => Errno::EMEDIUMTYPE,
            123 => Errno::ECANCELED,
            124 => Errno::ENOKEY,
            125 => Errno::EKEYEXPIRED,
            126 => Errno::EKEYREVOKED,
            127 => Errno::EKEYREJECTED,
            128 => Errno::EOWNERDEAD,
            129 => Errno::ENOTRECOVERABLE,
            130 => Errno::ERFKILL,
            131 => Errno::EHWPOISON,
            _ => Errno::UnknownErrno,
        }
    }

    /// Reading back the sub-code of a class gives that class.
    pub proof fn lemma_with_code_of_code(e: Errno)
        ensures
            Errno::with_code(e.code()) == e,
            e.code() <= 131,
    {
    }

    /// Every sub-code up to 131 belongs to the class it is read as.
    pub proof fn lemma_code_of_with_code(code: u8)
        ensures
            code <= 131 ==> Errno::with_code(code).code() == code,
            code > 131 ==> Errno::with_code(code) == Errno::UnknownErrno,
    {
    }

    /// No two classes share a sub-code.
    pub proof fn lemma_code_injective(a: Errno, b: Errno)
        requires
            a.code() == b.code(),
        ensures
            a == b,
    {
        Errno::lemma_with_code_of_code(a);
        Errno::lemma_with_code_of_code(b);
    }
}

impl From<Errno> for Error {
    fn from(e: Errno) -> (r: Error) {
        match e {
            Errno::EPERM => Error::NixError(1),
            Errno::ENOENT => Error::NixError(2),
            Errno::ESRCH => Error::NixError(3),
            Errno::EINTR => Error::NixError(4),
            Errno::EIO => Error::NixError(5),
            Errno::ENXIO => Error::NixError(6),
            Errno::E2BIG => Error::NixError(7),
            Errno::ENOEXEC => Error::NixError(8),
            Errno::EBADF => Error::NixError(9),
            Errno::ECHILD => Error::NixError(10),
            Errno::EAGAIN => Error::NixError(11),
            Errno::ENOMEM => Error::NixError(12),
            Errno::EACCES => Error::NixError(13),
            Errno::EFAULT => Error::NixError(14),
            Errno::ENOTBLK => Error::NixError(15),
            Errno::EBUSY => Error::NixError(16),
            Errno::EEXIST => Error::NixError(17),
            Errno::EXDEV => Error::NixError(18),
            Errno::ENODEV => Error::NixError(19),
            Errno::ENOTDIR => Error::NixError(20),
            Errno::EISDIR => Error::NixError(21),
            Errno::EINVAL => Error::NixError(22),
            Errno::ENFILE => Error::NixError(23),
            Errno::EMFILE => Error::NixError(24),
            Errno::ENOTTY => Error::NixError(25),
            Errno::ETXTBSY => Error::NixError(26),
            Errno::EFBIG => Error::NixError(27),
            Errno::ENOSPC => Error::NixError(28),
            Errno::ESPIPE => Error::NixError(29),
            Errno::EROFS => Error::NixError(30),
            Errno::EMLINK => Error::NixError(31),
            Errno::EPIPE => Error::NixError(32),
            Errno::EDOM => Error::NixError(33),
            Errno::ERANGE => Error::NixError(34),
            Errno::EDEADLK => Error::NixError(35),
            Errno::ENAMETOOLONG => Error::NixError(36),
            Errno::ENOLCK => Error::NixError(37),
            Errno::ENOSYS => Error::NixError(38),
            Errno::ENOTEMPTY => Error::NixError(39),
            Errno::ELOOP => Error::NixError(40),
            Errno::ENOMSG => Error::NixError(41),
            Errno::EIDRM => Error::NixError(42),
            Errno::ECHRNG => Error::NixError(43),
            Errno::EL2NSYNC => Error::NixError(44),
            Errno::EL3HLT => Error::NixError(45),
            Errno::EL3RST => Error::NixError(46),
            Errno::ELNRNG => Error::NixError(47),
            Errno::EUNATCH => Error::NixError(48),
            Errno::ENOCSI => Error::NixError(49),
            Errno::EL2HLT => Error::NixError(50),
            Errno::EBADE => Error::NixError(51),
            Errno::EBADR => Error::NixError(52),
            Errno::EXFULL => Error::NixError(53),
            Errno::ENOANO => Error::NixError(54),
            Errno::EBADRQC => Error::NixError(55),
            Errno::EBADSLT => Error::NixError(56),
            Errno::EBFONT => Error::NixError(57),
            Errno::ENOSTR => Error::NixError(58),
            Errno::ENODATA => Error::NixError(59),
            Errno::ETIME => Error::NixError(60),
            Errno::ENOSR => Error::NixError(61),
            Errno::ENONET => Error::NixError(62),
            Errno::ENOPKG => Error::NixError(63),
            Errno::EREMOTE => Error::NixError(64),
            Errno::ENOLINK => Error::NixError(65),
            Errno::EADV => Error::NixError(66),
            Errno::ESRMNT => Error::NixError(67),
            Errno::ECOMM => Error::NixError(68),
            Errno::EPROTO => Error::NixError(69),
            Errno::EMULTIHOP => Error::NixError(70),
            Errno::EDOTDOT => Error::NixError(71),
            Errno::EBADMSG => Error::NixError(72),
            Errno::EOVERFLOW => Error::NixError(73),
            Errno::ENOTUNIQ => Error::NixError(74),
            Errno::EBADFD => Error::NixError(75),
            Errno::EREMCHG => Error::NixError(76),
            Errno::ELIBACC => Error::NixError(77),
            Errno::ELIBBAD => Error::NixError(78),
            Errno::ELIBSCN => Error::NixError(79),
            Errno::ELIBMAX => Error::NixError(80),
            Errno::ELIBEXEC => Error::NixError(81),
            Errno::EILSEQ => Error::NixError(82),
            Errno::ERESTART => Error::NixError(83),
            Errno::ESTRPIPE => Error::NixError(84),
            Errno::EUSERS => Error::NixError(85),
            Errno::ENOTSOCK => Error::NixError(86),
            Errno::EDESTADDRREQ => Error::NixError(87),
            Errno::EMSGSIZE => Error::NixError(88),
            Errno::EPROTOTYPE => Error::NixError(89),
            Errno::ENOPROTOOPT => Error::NixError(90),
            Errno::EPROTONOSUPPORT => Error::NixError(91),
            Errno::ESOCKTNOSUPPORT => Error::NixError(92),
            Errno::EOPNOTSUPP => Error::NixError(93),
            Errno::EPFNOSUPPORT => Error::NixError(94),
            Errno::EAFNOSUPPORT => Error::NixError(95),
            Errno::EADDRINUSE => Error::NixError(96),
            Errno::EADDRNOTAVAIL => Error::NixError(97),
            Errno::ENETDOWN => Error::NixError(98),
            Errno::ENETUNREACH => Error::NixError(99),
            Errno::ENETRESET => Error::NixError(100),
            Errno::ECONNABORTED => Error::NixError(101),
            Errno::ECONNRESET => Error::NixError(102),
            Errno::ENOBUFS => Error::NixError(103),
            Errno::EISCONN => Error::NixError(104),
            Errno::ENOTCONN => Error::NixError(105),
            Errno::ESHUTDOWN => Error::NixError(106),
            Errno::ETOOMANYREFS => Error::NixError(107),
            Errno::ETIMEDOUT => Error::NixError(108),
            Errno::ECONNREFUSED => Error::NixError(109),
            Errno::EHOSTDOWN => Error::NixError(110),
            Errno::EHOSTUNREACH => Error::NixError(111),
            Errno::EALREADY => Error::NixError(112),
            Errno::EINPROGRESS => Error::NixError(113),
            Errno::ESTALE => Error::NixError(114),
            Errno::EUCLEAN => Error::NixError(115),
            Errno::ENOTNAM => Error::NixError(116),
            Errno::ENAVAIL => Error::NixError(117),
            Errno::EISNAM => Error::NixError(118),
            Errno::EREMOTEIO => Error::NixError(119),
            Errno::EDQUOT => Error::NixError(120),
            Errno::ENOMEDIUM => Error::NixError(121),
            Errno::EMEDIUMTYPE => Error::NixError(122),
            Errno::ECANCELED => Error::NixError(123),
            Errno::ENOKEY => Error::NixError(124),
            Errno::EKEYEXPIRED => Error::NixError(125),
            Errno::EKEYREVOKED => Error::NixError(126),
            Errno::EKEYREJECTED => Error::NixError(127),
            Errno::EOWNERDEAD => Error::NixError(128),
            Errno::ENOTRECOVERABLE => Error::NixError(129),
            Errno::ERFKILL => Error::NixError(130),
            Errno::EHWPOISON => Error::NixError(131),
            Errno::UnknownErrno => Error::NixError(0),
        }
    }
}

impl FromSpecImpl<Errno> for Error {
    open spec fn obeys_from_spec() -> bool {
        true
    }

    open spec fn from_spec(e: Errno) -> Error {
        Error::NixError(e.code())
    }
}

impl From<Error> for Errno {
    fn from(e: Error) -> (r: Errno) {
        match e {
            Error::NixError(1) => Errno::EPERM,
            Error::NixError(2) => Errno::ENOENT,
            Error::NixError(3) => Errno::ESRCH,
            Error::NixError(4) => Errno::EINTR,
            Error::NixError(5) => Errno::EIO,
            Error::NixError(6) => Errno::ENXIO,
            Error::NixError(7) => Errno::E2BIG,
            Error::NixError(8) => Errno::ENOEXEC,
            Error::NixError(9) => Errno::EBADF,
            Error::NixError(10) => Errno::ECHILD,
            Error::NixError(11) => Errno::EAGAIN,
            Error::NixError(12) => Errno::ENOMEM,
            Error::NixError(13) => Errno::EACCES,
            Error::NixError(14) => Errno::EFAULT,
            Error::NixError(15) => Errno::ENOTBLK,
            Error::NixError(16) => Errno::EBUSY,
            Error::NixError(17) => Errno::EEXIST,
            Error::NixError(18) => Errno::EXDEV,
            Error::NixError(19) => Errno::ENODEV,
            Error::NixError(20) => Errno::ENOTDIR,
            Error::NixError(21) => Errno::EISDIR,
            Error::NixError(22) => Errno::EINVAL,
            Error::NixError(23) => Errno::ENFILE,
            Error::NixError(24) => Errno::EMFILE,
            Error::NixError(25) => Errno::ENOTTY,
            Error::NixError(26) => Errno::ETXTBSY,
            Error::NixError(27) => Errno::EFBIG,
            Error::NixError(28) => Errno::ENOSPC,
            Error::NixError(29) => Errno::ESPIPE,
            Error::NixError(30) => Errno::EROFS,
            Error::NixError(31) => Errno::EMLINK,
            Error::NixError(32) => Errno::EPIPE,
            Error::NixError(33) => Errno::EDOM,
            Error::NixError(34) => Errno::ERANGE,
            Error::NixError(35) => Errno::EDEADLK,
            Error::NixError(36) => Errno::ENAMETOOLONG,
            Error::NixError(37) => Errno::ENOLCK,
            Error::NixError(38) => Errno::ENOSYS,
            Error::NixError(39) => Errno::ENOTEMPTY,
            Error::NixError(40) => Errno::ELOOP,
            Error::NixError(41) => Errno::ENOMSG,
            Error::NixError(42) => Errno::EIDRM,
            Error::NixError(43) => Errno::ECHRNG,
            Error::NixError(44) => Errno::EL2NSYNC,
            Error::NixError(45) => Errno::EL3HLT,
            Error::NixError(46) => Errno::EL3RST,
            Error::NixError(47) => Errno::ELNRNG,
            Error::NixError(48) => Errno::EUNATCH,
            Error::NixError(49) => Errno::ENOCSI,
            Error::NixError(50) => Errno::EL2HLT,
            Error::NixError(51) => Errno::EBADE,
            Error::NixError(52) => Errno::EBADR,
            Error::NixError(53) => Errno::EXFULL,
            Error::NixError(54) => Errno::ENOANO,
            Error::NixError(55) => Errno::EBADRQC,
            Error::NixError(56) => Errno::EBADSLT,
            Error::NixError(57) => Errno::EBFONT,
            Error::NixError(58) => Errno::ENOSTR,
            Error::NixError(59) => Errno::ENODATA,
            Error::NixError(60) => Errno::ETIME,
            Error::NixError(61) => Errno::ENOSR,
            Error::NixError(62) => Errno::ENONET,
            Error::NixError(63) => Errno::ENOPKG,
            Error::NixError(64) => Errno::EREMOTE,
            Error::NixError(65) => Errno::ENOLINK,
            Error::NixError(66) => Errno::EADV,
            Error::NixError(67) => Errno::ESRMNT,
            Error::NixError(68) => Errno::ECOMM,
            Error::NixError(69) => Errno::EPROTO,
            Error::NixError(70) => Errno::EMULTIHOP,
            Error::NixError(71) => Errno::EDOTDOT,
            Error::NixError(72) => Errno::EBADMSG,
            Error::NixError(73) => Errno::EOVERFLOW,
            Error::NixError(74) => Errno::ENOTUNIQ,
            Error::NixError(75) => Errno::EBADFD,
            Error::NixError(76) => Errno::EREMCHG,
            Error::NixError(77) => Errno::ELIBACC,
            Error::NixError(78) => Errno::ELIBBAD,
            Error::NixError(79) => Errno::ELIBSCN,
            Error::NixError(80) => Errno::ELIBMAX,
            Error::NixError(81) => Errno::ELIBEXEC,
            Error::NixError(82) => Errno::EILSEQ,
            Error::NixError(83) => Errno::ERESTART,
            Error::NixError(84) => Errno::ESTRPIPE,
            Error::NixError(85) => Errno::EUSERS,
            Error::NixError(86) => Errno::ENOTSOCK,
            Error::NixError(87) => Errno::EDESTADDRREQ,
            Error::NixError(88) => Errno::EMSGSIZE,
            Error::NixError(89) => Errno::EPROTOTYPE,
            Error::NixError(90) => Errno::ENOPROTOOPT,
            Error::NixError(91) => Errno::EPROTONOSUPPORT,
            Error::NixError(92) => Errno::ESOCKTNOSUPPORT,
            Error::NixError(93) => Errno::EOPNOTSUPP,
            Error::NixError(94) => Errno::EPFNOSUPPORT,
            Error::NixError(95) => Errno::EAFNOSUPPORT,
            Error::NixError(96) => Errno::EADDRINUSE,
            Error::NixError(97) => Errno::EADDRNOTAVAIL,
            Error::NixError(98) => Errno::ENETDOWN,
            Error::NixError(99) => Errno::ENETUNREACH,
            Error::NixError(100) => Errno::ENETRESET,
            Error::NixError(101) => Errno::ECONNABORTED,
            Error::NixError(102) => Errno::ECONNRESET,
            Error::NixError(103) => Errno::ENOBUFS,
            Error::NixError(104) => Errno::EISCONN,
            Error::NixError(105) => Errno::ENOTCONN,
            Error::NixError(106) => Errno::ESHUTDOWN,
            Error::NixError(107) => Errno::ETOOMANYREFS,
            Error::NixError(108) => Errno::ETIMEDOUT,
            Error::NixError(109) => Errno::ECONNREFUSED,
            Error::NixError(110) => Errno::EHOSTDOWN,
            Error::NixError(111) => Errno::EHOSTUNREACH,
            Error::NixError(112) => Errno::EALREADY,
            Error::NixError(113) => Errno::EINPROGRESS,
            Error::NixError(114) => Errno::ESTALE,
            Error::NixError(115) => Errno::EUCLEAN,
            Error::NixError(116) => Errno::ENOTNAM,
            Error::NixError(117) => Errno::ENAVAIL,
            Error::NixError(118) => Errno::EISNAM,
            Error::NixError(119) => Errno::EREMOTEIO,
            Error::NixError(120) => Errno::EDQUOT,
            Error::NixError(121) => Errno::ENOMEDIUM,
            Error::NixError(122) => Errno::EMEDIUMTYPE,
            Error::NixError(123) => Errno::ECANCELED,
            Error::NixError(124) => Errno::ENOKEY,
            Error::NixError(125) => Errno::EKEYEXPIRED,
            Error::NixError(126) => Errno::EKEYREVOKED,
            Error::NixError(127) => Errno::EKEYREJECTED,
            Error::NixError(128) => Errno::EOWNERDEAD,
            Error::NixError(129) => Errno::ENOTRECOVERABLE,
            Error::NixError(130) => Errno::ERFKILL,
            Error::NixError(131) => Errno::EHWPOISON,
            _ => Errno::UnknownErrno,
        }
    }
}

impl FromSpecImpl<Error> for Errno {
    open spec fn obeys_from_spec() -> bool {
        true
    }

    open spec fn from_spec(e: Error) -> Errno {
        match e {
            Error::NixError(code) => Errno::with_code(code),
            _ => Errno::UnknownErrno,
        }
    }
}

} // verus!
